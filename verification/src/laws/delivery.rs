//! Messages: dropped while there is no renderer, delivered in order once there
//! is one.

use vstd::prelude::*;
use crate::model::{is_live, sent, RegistryView};
use crate::renderer::{BevyMessage, BevyRenderer};

verus! {

/// The renderer went through `path` by handling the messages one after the
/// other, in the order of the sequence: one state before the first message and
/// one after each.
pub open spec fn handled_in_order<R: BevyRenderer>(
    path: Seq<R>,
    msgs: Seq<BevyMessage<R::Payload>>,
) -> bool {
    &&& path.len() == msgs.len() + 1
    &&& forall|i: int| 0 <= i < msgs.len() ==> R::handled(path[i], #[trigger] msgs[i], path[i + 1])
}

/// The renderer went from `first` to `last` by handling exactly the messages of
/// the sequence, each once, in order.
pub open spec fn delivered<R: BevyRenderer>(
    first: R,
    msgs: Seq<BevyMessage<R::Payload>>,
    last: R,
) -> bool {
    exists|path: Seq<R>| #[trigger]
        handled_in_order(path, msgs) && path.first() == first && path.last() == last
}

/// The registry went through `states` by one `send_message` to `id` for each of
/// the messages, in order.
pub open spec fn sent_in_order<R: BevyRenderer>(
    states: Seq<RegistryView<R>>,
    id: usize,
    msgs: Seq<BevyMessage<R::Payload>>,
) -> bool {
    &&& states.len() == msgs.len() + 1
    &&& forall|i: int|
        0 <= i < msgs.len() ==> sent(states[i], id, #[trigger] msgs[i], states[i + 1])
}

/// Messages sent before the renderer exists are dropped: however many are sent
/// to an identity without a slot, or with a slot that waits for its renderer,
/// the registry stays exactly as it was.
pub proof fn lemma_messages_before_resume_are_dropped<R: BevyRenderer>(
    states: Seq<RegistryView<R>>,
    id: usize,
    msgs: Seq<BevyMessage<R::Payload>>,
)
    requires
        sent_in_order(states, id, msgs),
        !is_live(states[0], id),
    ensures
        forall|i: int| 0 <= i < states.len() ==> #[trigger] states[i] == states[0],
    decreases msgs.len(),
{
    if msgs.len() > 0 {
        let n = msgs.len() as int;
        let earlier_states = states.drop_last();
        let earlier = msgs.drop_last();
        assert forall|i: int| 0 <= i < earlier.len() implies sent(
            earlier_states[i],
            id,
            #[trigger] earlier[i],
            earlier_states[i + 1],
        ) by {
            assert(sent(states[i], id, msgs[i], states[i + 1]));
        }
        lemma_messages_before_resume_are_dropped(earlier_states, id, earlier);
        assert(earlier_states[n - 1] == earlier_states[0]);
        assert(sent(states[n - 1], id, msgs[n - 1], states[n]));
        assert forall|i: int| 0 <= i < states.len() implies #[trigger] states[i] == states[0] by {
            if i < n {
                assert(earlier_states[i] == earlier_states[0]);
            }
        }
    }
}

/// While messages are sent to a slot that holds a renderer, the renderer stays
/// and nothing but the renderer changes.
proof fn lemma_sending_keeps_slot<R: BevyRenderer>(
    states: Seq<RegistryView<R>>,
    id: usize,
    msgs: Seq<BevyMessage<R::Payload>>,
    k: int,
)
    requires
        sent_in_order(states, id, msgs),
        is_live(states[0], id),
        0 <= k < states.len(),
    ensures
        is_live(states[k], id),
        states[k][id].ref_count == states[0][id].ref_count,
        states[k][id].paint_source_id == states[0][id].paint_source_id,
        forall|other: usize|
            other != id ==> (#[trigger] states[k].contains_key(other) <==> states[0].contains_key(
                other,
            )),
        forall|other: usize|
            other != id && states[0].contains_key(other) ==> #[trigger] states[k][other]
                == states[0][other],
    decreases k,
{
    if k > 0 {
        lemma_sending_keeps_slot(states, id, msgs, k - 1);
        assert(sent(states[k - 1], id, msgs[k - 1], states[k]));
    }
}

/// Messages sent to a slot that holds a renderer reach that renderer, each
/// once, in the order in which they were sent, and reach nothing else: the
/// slot's handle and reference count stay, and so does every other slot.
pub proof fn lemma_messages_arrive_in_order<R: BevyRenderer>(
    states: Seq<RegistryView<R>>,
    id: usize,
    msgs: Seq<BevyMessage<R::Payload>>,
)
    requires
        sent_in_order(states, id, msgs),
        is_live(states[0], id),
    ensures
        is_live(states.last(), id),
        delivered(states[0][id].renderer->0, msgs, states.last()[id].renderer->0),
        states.last()[id].ref_count == states[0][id].ref_count,
        states.last()[id].paint_source_id == states[0][id].paint_source_id,
        forall|other: usize|
            other != id ==> (#[trigger] states.last().contains_key(other)
                <==> states[0].contains_key(other)),
        forall|other: usize|
            other != id && states[0].contains_key(other) ==> #[trigger] states.last()[other]
                == states[0][other],
{
    let n = msgs.len() as int;
    lemma_sending_keeps_slot(states, id, msgs, n);
    let path = Seq::new(states.len(), |i: int| states[i][id].renderer->0);
    assert forall|i: int| 0 <= i < msgs.len() implies R::handled(
        path[i],
        #[trigger] msgs[i],
        path[i + 1],
    ) by {
        lemma_sending_keeps_slot(states, id, msgs, i);
        assert(sent(states[i], id, msgs[i], states[i + 1]));
    }
    assert(handled_in_order(path, msgs) && path.first() == states[0][id].renderer->0
        && path.last() == states.last()[id].renderer->0);
}

} // verus!

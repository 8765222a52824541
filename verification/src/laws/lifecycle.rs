//! The lifecycle of a slot: when its renderer is built, that it stays, and when
//! it is shut down.
//!
//! The lifecycle is first laid down as a small machine over phases and events.
//! Then every operation of the library is shown to move the phase as the
//! machine says, so that what holds of all runs of the machine holds of all
//! histories of the library.

use vstd::prelude::*;
use crate::model::{
    disposed, is_dormant, is_live, mounted, ref_count_of, sent, slot_rendered, slot_resumed,
    slot_suspended, unmounted, Disposal, RegistryView,
};
use crate::paint::{adapter_resumed, PaintSourceView};
use crate::renderer::{BevyMessage, BevyRenderer};

verus! {

/// Where the slot of one identity stands, together with the paint adapter that
/// was registered when the slot was created.
pub struct Phase {
    /// The identity has a slot.
    pub mounted: bool,
    /// The slot holds a renderer.
    pub live: bool,
    /// The adapter still holds its factory.
    pub pending: bool,
}

/// What can happen to a slot.
pub enum LifecycleEvent {
    /// `get_or_create`
    Mount,
    /// `release`
    Unmount,
    /// The adapter's `resume`. If this resume uses the factory, `constructs`
    /// says whether the factory builds a renderer or fails.
    Resume { constructs: bool },
    /// the adapter's `suspend`
    Suspend,
    /// the adapter's `render`
    Render,
    /// `send_message` or `send_signal`
    Message,
    /// `dispose`
    Dispose,
}

/// The phase of an identity that was never mounted.
pub open spec fn unknown() -> Phase {
    Phase { mounted: false, live: false, pending: false }
}

/// The event uses the factory: a resume that finds the slot without a renderer
/// and the factory unused.
pub open spec fn attempts(p: Phase, e: LifecycleEvent) -> bool {
    e is Resume && p.mounted && !p.live && p.pending
}

/// The event builds the renderer: it uses the factory, and the factory succeeds.
pub open spec fn builds(p: Phase, e: LifecycleEvent) -> bool {
    attempts(p, e) && e->constructs
}

/// The event shuts the renderer down: a disposal of a slot that holds one.
pub open spec fn shuts_down(p: Phase, e: LifecycleEvent) -> bool {
    e is Dispose && p.mounted && p.live
}

/// The phase after one event.
pub open spec fn step(p: Phase, e: LifecycleEvent) -> Phase {
    match e {
        LifecycleEvent::Mount => if p.mounted {
            p
        } else {
            Phase { mounted: true, live: false, pending: true }
        },
        LifecycleEvent::Resume { constructs } => if attempts(p, e) {
            Phase { mounted: true, live: constructs, pending: false }
        } else {
            p
        },
        LifecycleEvent::Dispose => unknown(),
        _ => p,
    }
}

/// The phase after the events, in order.
pub open spec fn run(p: Phase, events: Seq<LifecycleEvent>) -> Phase
    decreases events.len(),
{
    if events.len() == 0 {
        p
    } else {
        step(run(p, events.drop_last()), events.last())
    }
}

/// How often the events use a factory.
pub open spec fn attempts_in(p: Phase, events: Seq<LifecycleEvent>) -> nat
    decreases events.len(),
{
    if events.len() == 0 {
        0
    } else {
        attempts_in(p, events.drop_last()) + if attempts(
            run(p, events.drop_last()),
            events.last(),
        ) {
            1nat
        } else {
            0nat
        }
    }
}

/// How often the events build a renderer.
pub open spec fn builds_in(p: Phase, events: Seq<LifecycleEvent>) -> nat
    decreases events.len(),
{
    if events.len() == 0 {
        0
    } else {
        builds_in(p, events.drop_last()) + if builds(
            run(p, events.drop_last()),
            events.last(),
        ) {
            1nat
        } else {
            0nat
        }
    }
}

/// How often the events shut a renderer down.
pub open spec fn shutdowns_in(p: Phase, events: Seq<LifecycleEvent>) -> nat
    decreases events.len(),
{
    if events.len() == 0 {
        0
    } else {
        shutdowns_in(p, events.drop_last()) + if shuts_down(
            run(p, events.drop_last()),
            events.last(),
        ) {
            1nat
        } else {
            0nat
        }
    }
}

/// No event is a disposal.
pub open spec fn without_disposal(events: Seq<LifecycleEvent>) -> bool {
    forall|i: int| 0 <= i < events.len() ==> !(#[trigger] events[i] is Dispose)
}

/// Some resume comes after some mount.
pub open spec fn resumed_after_mount(events: Seq<LifecycleEvent>) -> bool {
    exists|i: int, j: int|
        0 <= i < j < events.len() && #[trigger] events[i] is Mount && #[trigger] events[j]
            is Resume
}

/// The phase of `id` in the registry `m`, next to an adapter whose factory is
/// unused or not, as `pending` says.
pub open spec fn phase_of<R>(m: RegistryView<R>, id: usize, pending: bool) -> Phase {
    Phase { mounted: m.contains_key(id), live: is_live(m, id), pending }
}

/// The renderer is built at most once, and only by a resume that follows a mount.
///
/// Take an identity that was never mounted and any sequence of mounts, unmounts,
/// resumes, suspends, renders and messages. The factory is used at most once,
/// and it is used exactly if some resume came after some mount; until then the
/// adapter holds it. So the renderer is built at most once, never before such a
/// resume, and it is there at the end exactly if it was built.
pub proof fn lemma_built_at_most_once(events: Seq<LifecycleEvent>)
    requires
        without_disposal(events),
    ensures
        attempts_in(unknown(), events) <= 1,
        builds_in(unknown(), events) <= attempts_in(unknown(), events),
        attempts_in(unknown(), events) == 1 <==> resumed_after_mount(events),
        run(unknown(), events).live <==> builds_in(unknown(), events) == 1,
        run(unknown(), events).mounted <==> exists|i: int|
            0 <= i < events.len() && #[trigger] events[i] is Mount,
        run(unknown(), events).pending <==> run(unknown(), events).mounted && attempts_in(
            unknown(),
            events,
        ) == 0,
    decreases events.len(),
{
    if events.len() > 0 {
        let earlier = events.drop_last();
        let n = earlier.len() as int;
        lemma_built_at_most_once(earlier);
        let before = run(unknown(), earlier);
        if before.mounted {
            let i = choose|i: int| 0 <= i < earlier.len() && #[trigger] earlier[i] is Mount;
            assert(events[i] is Mount);
            if events.last() is Resume {
                assert(events[n] is Resume);
                assert(resumed_after_mount(events));
            }
        }
        if resumed_after_mount(earlier) {
            let (i, j) = choose|i: int, j: int|
                0 <= i < j < earlier.len() && #[trigger] earlier[i] is Mount
                    && #[trigger] earlier[j] is Resume;
            assert(events[i] is Mount && events[j] is Resume);
        }
        if resumed_after_mount(events) {
            let (i, j) = choose|i: int, j: int|
                0 <= i < j < events.len() && #[trigger] events[i] is Mount
                    && #[trigger] events[j] is Resume;
            assert(earlier[i] is Mount);
            if j < n {
                assert(earlier[j] is Resume);
            }
        }
        if exists|i: int| 0 <= i < events.len() && #[trigger] events[i] is Mount {
            let i = choose|i: int| 0 <= i < events.len() && #[trigger] events[i] is Mount;
            if i < n {
                assert(earlier[i] is Mount);
            }
        }
    }
}

/// A renderer, once built, stays: no sequence of mounts, unmounts, resumes,
/// suspends, renders and messages rebuilds it, drops it or shuts it down,
/// however many there are.
pub proof fn lemma_renderer_survives(p: Phase, events: Seq<LifecycleEvent>)
    requires
        p.mounted && p.live,
        without_disposal(events),
    ensures
        run(p, events) == p,
        attempts_in(p, events) == 0,
        builds_in(p, events) == 0,
        shutdowns_in(p, events) == 0,
    decreases events.len(),
{
    if events.len() > 0 {
        lemma_renderer_survives(p, events.drop_last());
    }
}

/// A slot whose factory failed stays without a renderer: the factory is gone,
/// and no sequence of mounts, unmounts, resumes, suspends, renders and messages
/// builds anything. Nothing else is disturbed; only a disposal ends the slot.
pub proof fn lemma_failed_build_is_final(p: Phase, events: Seq<LifecycleEvent>)
    requires
        p.mounted && !p.live && !p.pending,
        without_disposal(events),
    ensures
        run(p, events) == p,
        attempts_in(p, events) == 0,
        builds_in(p, events) == 0,
    decreases events.len(),
{
    if events.len() > 0 {
        lemma_failed_build_is_final(p, events.drop_last());
    }
}

/// A renderer is shut down exactly once over the life of its slot: not before
/// the slot is disposed, whatever happened in between, and once when it is.
pub proof fn lemma_shut_down_exactly_once(p: Phase, events: Seq<LifecycleEvent>)
    requires
        p.mounted && p.live,
        without_disposal(events),
    ensures
        shutdowns_in(p, events) == 0,
        shutdowns_in(p, events.push(LifecycleEvent::Dispose)) == 1,
        run(p, events.push(LifecycleEvent::Dispose)) == unknown(),
{
    lemma_renderer_survives(p, events);
    assert(events.push(LifecycleEvent::Dispose).drop_last() =~= events);
}

/// Over any sequence of events, disposals included, every renderer that was
/// built was shut down once, but for the one that is still there.
pub proof fn lemma_every_renderer_shut_down_once(events: Seq<LifecycleEvent>)
    ensures
        builds_in(unknown(), events) == shutdowns_in(unknown(), events) + if run(
            unknown(),
            events,
        ).live {
            1nat
        } else {
            0nat
        },
        run(unknown(), events).live ==> run(unknown(), events).mounted,
    decreases events.len(),
{
    if events.len() > 0 {
        lemma_every_renderer_shut_down_once(events.drop_last());
    }
}

/// `get_or_create` is the mount of the lifecycle. For an identity that has a
/// slot, the adapter stays the one it was. For a new identity the phase starts
/// from unknown, and the adapter is the new one, which holds its factory.
pub proof fn lemma_mount_is_a_step<R>(m: RegistryView<R>, id: usize, handle: u64, pending: bool)
    ensures
        m.contains_key(id) ==> phase_of(mounted(m, id, handle), id, pending) == step(
            phase_of(m, id, pending),
            LifecycleEvent::Mount,
        ),
        !m.contains_key(id) ==> phase_of(m, id, false) == unknown() && phase_of(
            mounted(m, id, handle),
            id,
            true,
        ) == step(unknown(), LifecycleEvent::Mount),
{
}

/// `release` is the unmount of the lifecycle.
pub proof fn lemma_unmount_is_a_step<R>(m: RegistryView<R>, id: usize, pending: bool)
    ensures
        phase_of(unmounted(m, id), id, pending) == step(
            phase_of(m, id, pending),
            LifecycleEvent::Unmount,
        ),
{
}

/// The adapter's `resume` is the resume of the lifecycle: it uses the factory
/// exactly where the lifecycle says so, and the renderer is there afterwards
/// exactly if it was there before or the factory built it. A resume of a slot
/// with a renderer, or of an identity without a slot, leaves the factory alone,
/// and no resume ever gives a factory back.
pub proof fn lemma_resume_is_a_step<R: BevyRenderer, F: FnOnce(&R::Device) -> Option<R>>(
    before: PaintSourceView<F>,
    pre: RegistryView<R>,
    device: R::Device,
    after: PaintSourceView<F>,
    post: RegistryView<R>,
)
    requires
        adapter_resumed(before, pre, device, after, post),
    ensures
        phase_of(post, before.instance_id, after.factory is Some) == step(
            phase_of(pre, before.instance_id, before.factory is Some),
            LifecycleEvent::Resume { constructs: is_live(post, before.instance_id) },
        ),
        attempts(
            phase_of(pre, before.instance_id, before.factory is Some),
            LifecycleEvent::Resume { constructs: is_live(post, before.instance_id) },
        ) <==> before.factory is Some && after.factory is None,
        is_live(pre, before.instance_id) ==> is_live(post, before.instance_id),
        is_live(post, before.instance_id) ==> is_live(pre, before.instance_id) || (is_dormant(
            pre,
            before.instance_id,
        ) && before.factory is Some && after.factory is None),
        after.factory is Some ==> after.factory == before.factory,
        is_live(pre, before.instance_id) ==> after.factory == before.factory,
        !pre.contains_key(before.instance_id) ==> post == pre && after == before,
{
}

/// Whatever is forwarded to the renderer leaves the phase as it is: the
/// adapter's `suspend` and `render`, a `resume` that builds nothing, and the
/// sending of a message. The reference count stays too.
pub proof fn lemma_forwarding_keeps_phase<R: BevyRenderer>(
    pre: RegistryView<R>,
    id: usize,
    post: RegistryView<R>,
    pending: bool,
)
    requires
        ({
            ||| slot_suspended(pre, id, post)
            ||| exists|device: R::Device| slot_resumed(pre, id, device, post)
            ||| exists|ctx: R::Context<'_>, width: u32, height: u32, texture: Option<R::Texture>|
                slot_rendered(pre, id, ctx, width, height, post, texture)
            ||| exists|msg: BevyMessage<R::Payload>| sent(pre, id, msg, post)
        }),
    ensures
        phase_of(post, id, pending) == phase_of(pre, id, pending),
        phase_of(post, id, pending) == step(phase_of(pre, id, pending), LifecycleEvent::Suspend),
        phase_of(post, id, pending) == step(phase_of(pre, id, pending), LifecycleEvent::Render),
        phase_of(post, id, pending) == step(phase_of(pre, id, pending), LifecycleEvent::Message),
        ref_count_of(post, id) == ref_count_of(pre, id),
{
}

/// `dispose` is the disposal of the lifecycle, and it shuts a renderer down
/// exactly where the lifecycle says so. Afterwards the identity is unknown
/// again: the adapter of the slot that is gone counts no more.
pub proof fn lemma_dispose_is_a_step<R: BevyRenderer>(
    pre: RegistryView<R>,
    id: usize,
    post: RegistryView<R>,
    outcome: Disposal<R>,
    pending: bool,
)
    requires
        disposed(pre, id, post, outcome),
    ensures
        phase_of(post, id, false) == step(phase_of(pre, id, pending), LifecycleEvent::Dispose),
        outcome is ShutDown <==> shuts_down(phase_of(pre, id, pending), LifecycleEvent::Dispose),
{
}

/// A registry together with the paint adapter of one identity.
pub struct Situation<R, F> {
    /// The registry.
    pub registry: RegistryView<R>,
    /// The adapter that the host holds for the identity.
    pub adapter: PaintSourceView<F>,
}

/// The phase of the adapter's identity in a situation. An adapter without a
/// slot does not count as pending: nothing can use its factory.
pub open spec fn situation_phase<R, F>(s: Situation<R, F>) -> Phase {
    let id = s.adapter.instance_id;
    phase_of(s.registry, id, s.registry.contains_key(id) && s.adapter.factory is Some)
}

/// One operation of the library takes `pre` to `post`, as its contract says,
/// and `event` is its kind. A mount of a new identity brings the new adapter,
/// which holds its factory; every other operation leaves the adapter to
/// `resume`.
pub open spec fn performs<R: BevyRenderer, F: FnOnce(&R::Device) -> Option<R>>(
    pre: Situation<R, F>,
    event: LifecycleEvent,
    post: Situation<R, F>,
) -> bool {
    let id = pre.adapter.instance_id;
    &&& post.adapter.instance_id == id
    &&& match event {
        LifecycleEvent::Mount => {
            &&& exists|handle: u64| post.registry == #[trigger] mounted(pre.registry, id, handle)
            &&& if pre.registry.contains_key(id) {
                post.adapter == pre.adapter
            } else {
                post.adapter.factory is Some
            }
        },
        LifecycleEvent::Unmount => {
            &&& post.registry == unmounted(pre.registry, id)
            &&& post.adapter == pre.adapter
        },
        LifecycleEvent::Resume { constructs } => {
            &&& exists|device: R::Device| #[trigger]
                adapter_resumed(pre.adapter, pre.registry, device, post.adapter, post.registry)
            &&& constructs == is_live(post.registry, id)
        },
        LifecycleEvent::Suspend => {
            &&& slot_suspended(pre.registry, id, post.registry)
            &&& post.adapter == pre.adapter
        },
        LifecycleEvent::Render => {
            &&& exists|ctx: R::Context<'_>, width: u32, height: u32, texture: Option<R::Texture>|
             #[trigger]
                slot_rendered(pre.registry, id, ctx, width, height, post.registry, texture)
            &&& post.adapter == pre.adapter
        },
        LifecycleEvent::Message => {
            &&& exists|msg: BevyMessage<R::Payload>| #[trigger]
                sent(pre.registry, id, msg, post.registry)
            &&& post.adapter == pre.adapter
        },
        LifecycleEvent::Dispose => {
            &&& exists|outcome: Disposal<R>| #[trigger]
                disposed(pre.registry, id, post.registry, outcome)
            &&& post.adapter == pre.adapter
        },
    }
}

/// The situations follow one another by the operations that `events` name.
pub open spec fn history_of<R: BevyRenderer, F: FnOnce(&R::Device) -> Option<R>>(
    situations: Seq<Situation<R, F>>,
    events: Seq<LifecycleEvent>,
) -> bool {
    &&& situations.len() == events.len() + 1
    &&& forall|i: int|
        0 <= i < events.len() ==> performs(situations[i], #[trigger] events[i], situations[i + 1])
}

/// The renderer of the adapter's identity is absent before step `i` and there
/// after it.
pub open spec fn appears_at<R, F>(situations: Seq<Situation<R, F>>, i: int) -> bool {
    let id = situations[0].adapter.instance_id;
    !is_live(situations[i].registry, id) && is_live(situations[i + 1].registry, id)
}

/// One operation moves the phase as the lifecycle says.
pub proof fn lemma_operation_is_a_step<R: BevyRenderer, F: FnOnce(&R::Device) -> Option<R>>(
    pre: Situation<R, F>,
    event: LifecycleEvent,
    post: Situation<R, F>,
)
    requires
        performs(pre, event, post),
    ensures
        situation_phase(post) == step(situation_phase(pre), event),
{
}

/// Whatever the library does to an identity, its phase follows the lifecycle:
/// after the first `k` operations of a history, the phase is the one that the
/// first `k` events lead to.
pub proof fn lemma_history_follows_lifecycle<R: BevyRenderer, F: FnOnce(&R::Device) -> Option<R>>(
    situations: Seq<Situation<R, F>>,
    events: Seq<LifecycleEvent>,
    k: int,
)
    requires
        history_of(situations, events),
        0 <= k <= events.len(),
    ensures
        situations[k].adapter.instance_id == situations[0].adapter.instance_id,
        situation_phase(situations[k]) == run(situation_phase(situations[0]), events.take(k)),
    decreases k,
{
    if k > 0 {
        lemma_history_follows_lifecycle(situations, events, k - 1);
        assert(performs(situations[k - 1], events[k - 1], situations[k]));
        lemma_operation_is_a_step(situations[k - 1], events[k - 1], situations[k]);
        assert(events.take(k).drop_last() =~= events.take(k - 1));
        assert(events.take(k).last() == events[k - 1]);
    }
}

/// In every history of an identity that starts without a slot and holds no
/// disposal, the renderer appears at most once; it appears in a resume, and
/// that resume comes after a mount. However the mounts, unmounts, resumes,
/// suspends, renders and messages are ordered, and however many there are.
pub proof fn lemma_renderer_appears_once<R: BevyRenderer, F: FnOnce(&R::Device) -> Option<R>>(
    situations: Seq<Situation<R, F>>,
    events: Seq<LifecycleEvent>,
)
    requires
        history_of(situations, events),
        without_disposal(events),
        !situations[0].registry.contains_key(situations[0].adapter.instance_id),
    ensures
        forall|i: int, j: int|
            0 <= i < j < events.len() ==> !(#[trigger] appears_at(situations, i)
                && #[trigger] appears_at(situations, j)),
        forall|i: int|
            0 <= i < events.len() && #[trigger] appears_at(situations, i) ==> events[i] is Resume
                && exists|k: int| 0 <= k < i && #[trigger] events[k] is Mount,
{
    assert(situation_phase(situations[0]) == unknown());
    assert forall|i: int| 0 <= i < events.len() && #[trigger] appears_at(
        situations,
        i,
    ) implies events[i] is Resume && exists|k: int| 0 <= k < i && #[trigger] events[k] is Mount by {
        lemma_history_follows_lifecycle(situations, events, i);
        lemma_history_follows_lifecycle(situations, events, i + 1);
        lemma_operation_is_a_step(situations[i], events[i], situations[i + 1]);
        let earlier = events.take(i);
        assert(without_disposal(earlier));
        lemma_built_at_most_once(earlier);
        let k = choose|k: int| 0 <= k < earlier.len() && #[trigger] earlier[k] is Mount;
        assert(events[k] is Mount);
    }
    assert forall|i: int, j: int| 0 <= i < j < events.len() implies !(#[trigger] appears_at(
        situations,
        i,
    ) && #[trigger] appears_at(situations, j)) by {
        if appears_at(situations, i) {
            lemma_history_follows_lifecycle(situations, events, i + 1);
            lemma_history_follows_lifecycle(situations, events, j);
            let live = situation_phase(situations[i + 1]);
            let between = events.subrange(i + 1, j);
            assert(without_disposal(between));
            lemma_renderer_survives(live, between);
            lemma_run_in_two(unknown(), events.take(i + 1), between);
            assert(events.take(i + 1) + between =~= events.take(j));
        }
    }
}

/// A renderer leaves its slot only by a disposal, which shuts it down, and the
/// slot goes with it: no mount, unmount, resume, suspend, render or message
/// takes a renderer away, and after a disposal there is no slot left whose
/// renderer could be shut down again.
pub proof fn lemma_renderer_leaves_by_disposal_only<
    R: BevyRenderer,
    F: FnOnce(&R::Device) -> Option<R>,
>(situations: Seq<Situation<R, F>>, events: Seq<LifecycleEvent>, i: int)
    requires
        history_of(situations, events),
        0 <= i < events.len(),
    ensures
        is_live(situations[i].registry, situations[0].adapter.instance_id) && !(events[i]
            is Dispose) ==> is_live(situations[i + 1].registry, situations[0].adapter.instance_id),
        events[i] is Dispose ==> !situations[i + 1].registry.contains_key(
            situations[0].adapter.instance_id,
        ),
        events[i] is Dispose ==> exists|outcome: Disposal<R>| #[trigger]
            disposed(
                situations[i].registry,
                situations[0].adapter.instance_id,
                situations[i + 1].registry,
                outcome,
            ) && (outcome is ShutDown <==> is_live(
                situations[i].registry,
                situations[0].adapter.instance_id,
            )),
{
    lemma_history_follows_lifecycle(situations, events, i);
    lemma_history_follows_lifecycle(situations, events, i + 1);
    assert(performs(situations[i], events[i], situations[i + 1]));
    lemma_operation_is_a_step(situations[i], events[i], situations[i + 1]);
    if events[i] is Dispose {
        let id = situations[i].adapter.instance_id;
        let outcome = choose|outcome: Disposal<R>| #[trigger]
            disposed(situations[i].registry, id, situations[i + 1].registry, outcome);
        lemma_dispose_is_a_step(
            situations[i].registry,
            id,
            situations[i + 1].registry,
            outcome,
            false,
        );
    }
}

/// Running two sequences of events one after the other is running their
/// concatenation.
pub proof fn lemma_run_in_two(p: Phase, first: Seq<LifecycleEvent>, second: Seq<LifecycleEvent>)
    ensures
        run(p, first + second) == run(run(p, first), second),
    decreases second.len(),
{
    if second.len() == 0 {
        assert(first + second =~= first);
    } else {
        lemma_run_in_two(p, first, second.drop_last());
        assert((first + second).drop_last() =~= first + second.drop_last());
    }
}

} // verus!

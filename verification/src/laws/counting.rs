//! Reference counts: what histories of mounts and unmounts do to a slot.

use vstd::prelude::*;
use crate::model::{mounted, ref_count_of, renderer_of, unmounted, RegistryView};

verus! {

/// One step of the mount history of an identity.
pub enum MountEvent {
    /// A mount; `handle` is what the registrar would return if asked.
    Mount { handle: u64 },
    /// An unmount.
    Unmount,
}

/// The registry after the mounts and unmounts of `id` in `history`, in order.
pub open spec fn cycled<R>(m: RegistryView<R>, id: usize, history: Seq<MountEvent>) -> RegistryView<
    R,
>
    decreases history.len(),
{
    if history.len() == 0 {
        m
    } else {
        let before = cycled(m, id, history.drop_last());
        match history.last() {
            MountEvent::Mount { handle } => mounted(before, id, handle),
            MountEvent::Unmount => unmounted(before, id),
        }
    }
}

/// Number of mounts in `history`.
pub open spec fn mounts(history: Seq<MountEvent>) -> nat
    decreases history.len(),
{
    if history.len() == 0 {
        0
    } else {
        mounts(history.drop_last()) + if history.last() is Mount {
            1nat
        } else {
            0nat
        }
    }
}

/// Number of unmounts in `history`.
pub open spec fn unmounts(history: Seq<MountEvent>) -> nat
    decreases history.len(),
{
    if history.len() == 0 {
        0
    } else {
        unmounts(history.drop_last()) + if history.last() is Unmount {
            1nat
        } else {
            0nat
        }
    }
}

/// Starting from `start` references, no unmount in `history` comes without a
/// reference to give up.
pub open spec fn never_overdrawn(start: nat, history: Seq<MountEvent>) -> bool {
    forall|k: int|
        0 <= k <= history.len() ==> unmounts(#[trigger] history.take(k)) <= start + mounts(
            history.take(k),
        )
}

/// The reference count is the number of mounts less the number of unmounts.
///
/// Take any registry and any history of mounts and unmounts of one identity in
/// which no unmount comes without a reference to give up, and in which the count
/// stays within `usize`. Afterwards the identity's count is what it was, plus
/// the mounts, minus the unmounts. For an identity that had no slot this is the
/// number of mounts minus the number of unmounts, and the slot exists as soon as
/// there was one mount.
pub proof fn lemma_ref_count_is_mounts_less_unmounts<R>(
    m: RegistryView<R>,
    id: usize,
    history: Seq<MountEvent>,
)
    requires
        never_overdrawn(ref_count_of(m, id), history),
        ref_count_of(m, id) + mounts(history) <= usize::MAX,
    ensures
        ref_count_of(cycled(m, id, history), id) == ref_count_of(m, id) + mounts(history)
            - unmounts(history),
        cycled(m, id, history).contains_key(id) <==> m.contains_key(id) || mounts(history) > 0,
    decreases history.len(),
{
    let start = ref_count_of(m, id);
    if history.len() > 0 {
        let earlier = history.drop_last();
        assert forall|k: int| 0 <= k <= earlier.len() implies unmounts(#[trigger] earlier.take(k))
            <= start + mounts(earlier.take(k)) by {
            assert(earlier.take(k) =~= history.take(k));
        }
        lemma_ref_count_is_mounts_less_unmounts(m, id, earlier);
        assert(history.take(history.len() as int) =~= history);
    }
}

/// The reference count never falls below zero, and never below the number of
/// mounts less the number of unmounts: whatever the history, an unmount without
/// a reference to give up leaves the count where it is.
pub proof fn lemma_ref_count_never_negative<R>(
    m: RegistryView<R>,
    id: usize,
    history: Seq<MountEvent>,
)
    requires
        ref_count_of(m, id) + mounts(history) <= usize::MAX,
    ensures
        ref_count_of(cycled(m, id, history), id) >= 0,
        ref_count_of(cycled(m, id, history), id) >= ref_count_of(m, id) + mounts(history)
            - unmounts(history),
        ref_count_of(cycled(m, id, history), id) <= ref_count_of(m, id) + mounts(history),
    decreases history.len(),
{
    if history.len() > 0 {
        lemma_ref_count_never_negative(m, id, history.drop_last());
    }
}

/// Mounting and unmounting never build, replace or drop a renderer.
///
/// After any history of mounts and unmounts of `id`, the slot of `id` holds the
/// renderer that it held before: the same value, with whatever state it had. A
/// slot that the history created holds none. The handle of a slot that existed
/// is the one it had, and every other identity is as it was.
pub proof fn lemma_mounting_keeps_renderer<R>(
    m: RegistryView<R>,
    id: usize,
    history: Seq<MountEvent>,
)
    ensures
        renderer_of(cycled(m, id, history), id) == renderer_of(m, id),
        m.contains_key(id) ==> cycled(m, id, history).contains_key(id) && cycled(
            m,
            id,
            history,
        )[id].paint_source_id == m[id].paint_source_id,
        forall|other: usize|
            other != id ==> (#[trigger] cycled(m, id, history).contains_key(other)
                <==> m.contains_key(other)),
        forall|other: usize|
            other != id && m.contains_key(other) ==> #[trigger] cycled(m, id, history)[other]
                == m[other],
    decreases history.len(),
{
    if history.len() > 0 {
        lemma_mounting_keeps_renderer(m, id, history.drop_last());
    }
}

} // verus!

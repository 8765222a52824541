//! The mathematical model of the registry: a map from instance identity to slot,
//! and what each operation does to it.

use vstd::prelude::*;
use crate::renderer::{BevyMessage, BevyRenderer};

verus! {

/// One slot of the registry.
pub struct SlotView<R> {
    /// The renderer, once it has been built.
    pub renderer: Option<R>,
    /// Handle under which the host knows the slot's paint adapter.
    pub paint_source_id: u64,
    /// Number of mounts that currently refer to the slot.
    pub ref_count: nat,
}

/// The registry: the slot of every identity that has one.
pub type RegistryView<R> = Map<usize, SlotView<R>>;

/// A reference count after one more mount. The count stops at `usize::MAX`.
pub open spec fn bumped(count: nat) -> nat {
    if count < usize::MAX {
        count + 1
    } else {
        count
    }
}

/// A reference count after one unmount. The count stops at zero.
pub open spec fn dropped(count: nat) -> nat {
    if count > 0 {
        (count - 1) as nat
    } else {
        0
    }
}

/// The slot of `id` holds a renderer.
pub open spec fn is_live<R>(m: RegistryView<R>, id: usize) -> bool {
    m.contains_key(id) && m[id].renderer is Some
}

/// The slot of `id` exists and holds no renderer yet.
pub open spec fn is_dormant<R>(m: RegistryView<R>, id: usize) -> bool {
    m.contains_key(id) && m[id].renderer is None
}

/// The renderer of `id`, if its slot holds one.
pub open spec fn renderer_of<R>(m: RegistryView<R>, id: usize) -> Option<R> {
    if m.contains_key(id) {
        m[id].renderer
    } else {
        None
    }
}

/// The reference count of `id`; zero where it has no slot.
pub open spec fn ref_count_of<R>(m: RegistryView<R>, id: usize) -> nat {
    if m.contains_key(id) {
        m[id].ref_count
    } else {
        0
    }
}

/// The registry after a mount of `id`. A known identity gains a reference and
/// keeps its handle and renderer; a new one gets a slot with one reference, the
/// given handle and no renderer.
pub open spec fn mounted<R>(m: RegistryView<R>, id: usize, handle: u64) -> RegistryView<R> {
    if m.contains_key(id) {
        m.insert(id, SlotView { ref_count: bumped(m[id].ref_count), ..m[id] })
    } else {
        m.insert(id, SlotView { renderer: None, paint_source_id: handle, ref_count: 1 })
    }
}

/// The registry after an unmount of `id`. The slot loses a reference and stays,
/// also at zero; an unknown identity changes nothing.
pub open spec fn unmounted<R>(m: RegistryView<R>, id: usize) -> RegistryView<R> {
    if m.contains_key(id) {
        m.insert(id, SlotView { ref_count: dropped(m[id].ref_count), ..m[id] })
    } else {
        m
    }
}

/// The registry with `renderer` in the slot of `id`, all else as before.
pub open spec fn with_renderer<R>(m: RegistryView<R>, id: usize, renderer: R) -> RegistryView<R> {
    m.insert(id, SlotView { renderer: Some(renderer), ..m[id] })
}

/// From `pre` to `post` only the renderer of `id` moved, and it is still there.
pub open spec fn renderer_stepped<R>(
    pre: RegistryView<R>,
    id: usize,
    post: RegistryView<R>,
) -> bool {
    &&& is_live(pre, id)
    &&& is_live(post, id)
    &&& post == with_renderer(pre, id, post[id].renderer->0)
}

/// What `install` does: a dormant slot takes the renderer; anything else is left
/// alone and the renderer comes back.
pub open spec fn installed<R>(
    pre: RegistryView<R>,
    id: usize,
    renderer: R,
    post: RegistryView<R>,
    returned: Option<R>,
) -> bool {
    if is_dormant(pre, id) {
        post == with_renderer(pre, id, renderer) && returned is None
    } else {
        post == pre && returned == Some(renderer)
    }
}

/// What `send_message` does: a live renderer handles the message; otherwise the
/// message is dropped and nothing changes.
pub open spec fn sent<R: BevyRenderer>(
    pre: RegistryView<R>,
    id: usize,
    msg: BevyMessage<R::Payload>,
    post: RegistryView<R>,
) -> bool {
    if is_live(pre, id) {
        renderer_stepped(pre, id, post) && R::handled(
            pre[id].renderer->0,
            msg,
            post[id].renderer->0,
        )
    } else {
        post == pre
    }
}

/// What forwarding `resume` does: a live renderer resumes on the device;
/// otherwise nothing changes.
pub open spec fn slot_resumed<R: BevyRenderer>(
    pre: RegistryView<R>,
    id: usize,
    device: R::Device,
    post: RegistryView<R>,
) -> bool {
    if is_live(pre, id) {
        renderer_stepped(pre, id, post) && R::resumed(
            pre[id].renderer->0,
            device,
            post[id].renderer->0,
        )
    } else {
        post == pre
    }
}

/// What forwarding `suspend` does: a live renderer suspends; otherwise nothing
/// changes.
pub open spec fn slot_suspended<R: BevyRenderer>(
    pre: RegistryView<R>,
    id: usize,
    post: RegistryView<R>,
) -> bool {
    if is_live(pre, id) {
        renderer_stepped(pre, id, post) && R::suspended(pre[id].renderer->0, post[id].renderer->0)
    } else {
        post == pre
    }
}

/// What forwarding `render` does: a live renderer renders and its answer is
/// handed on; otherwise nothing changes and there is no texture.
pub open spec fn slot_rendered<'a, R: BevyRenderer>(
    pre: RegistryView<R>,
    id: usize,
    ctx: R::Context<'a>,
    width: u32,
    height: u32,
    post: RegistryView<R>,
    texture: Option<R::Texture>,
) -> bool {
    if is_live(pre, id) {
        renderer_stepped(pre, id, post) && R::rendered(
            pre[id].renderer->0,
            ctx,
            width,
            height,
            post[id].renderer->0,
            texture,
        )
    } else {
        post == pre && texture is None
    }
}

/// How a disposal ended.
pub enum Disposal<R> {
    /// The identity had no slot.
    Unknown,
    /// The slot was removed; it never held a renderer.
    Dormant,
    /// The slot was removed and its renderer shut down; here it is, to be dropped.
    ShutDown(R),
}

/// What `dispose` does: the slot goes, and a renderer in it is shut down once.
pub open spec fn disposed<R: BevyRenderer>(
    pre: RegistryView<R>,
    id: usize,
    post: RegistryView<R>,
    outcome: Disposal<R>,
) -> bool {
    &&& post == pre.remove(id)
    &&& match outcome {
        Disposal::Unknown => !pre.contains_key(id),
        Disposal::Dormant => is_dormant(pre, id),
        Disposal::ShutDown(after) => is_live(pre, id) && R::shut_down(pre[id].renderer->0, after),
    }
}

/// What a teardown hands back: for every slot that held a renderer, and for
/// no other, the identity and the renderer after its one shutdown.
pub open spec fn torn_down<R: BevyRenderer>(pre: RegistryView<R>, ended: Seq<(usize, R)>) -> bool {
    &&& forall|i: int|
        0 <= i < ended.len() ==> is_live(pre, (#[trigger] ended[i]).0) && R::shut_down(
            pre[ended[i].0].renderer->0,
            ended[i].1,
        )
    &&& forall|i: int, j: int|
        0 <= i < j < ended.len() ==> (#[trigger] ended[i]).0 != (#[trigger] ended[j]).0
    &&& forall|id: usize| #[trigger]
        is_live(pre, id) ==> exists|i: int| 0 <= i < ended.len() && (#[trigger] ended[i]).0 == id
}

} // verus!

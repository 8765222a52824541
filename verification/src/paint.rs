//! The paint adapter: what the host's paint pipeline holds for one slot.

use vstd::prelude::*;
use crate::manager::BevyInstanceManager;
use crate::model::{
    is_dormant, is_live, slot_rendered, slot_resumed, slot_suspended, with_renderer, RegistryView,
};
use crate::renderer::BevyRenderer;

verus! {

/// Bridges the host's paint callbacks to one slot of the registry. It holds the
/// identity of the slot and, until the first resume that finds the slot without a
/// renderer, the one-shot factory that builds it.
pub struct ManagedBevyPaintSource<F> {
    instance_id: usize,
    factory: Option<F>,
}

/// What an adapter holds.
pub struct PaintSourceView<F> {
    /// The identity of the slot that the adapter serves.
    pub instance_id: usize,
    /// The factory, while it has not been used.
    pub factory: Option<F>,
}

impl<F> View for ManagedBevyPaintSource<F> {
    type V = PaintSourceView<F>;

    closed spec fn view(&self) -> PaintSourceView<F> {
        PaintSourceView { instance_id: self.instance_id, factory: self.factory }
    }
}

impl<F> ManagedBevyPaintSource<F> {
    /// An adapter for `instance_id` that will build the renderer with `factory`.
    pub fn new(instance_id: usize, factory: F) -> (adapter: Self)
        ensures
            adapter@ == (PaintSourceView { instance_id, factory: Some(factory) }),
    {
        ManagedBevyPaintSource { instance_id, factory: Some(factory) }
    }

    /// The identity of the slot that the adapter serves.
    pub fn id(&self) -> (id: usize)
        ensures
            id == self@.instance_id,
    {
        self.instance_id
    }

    /// Whether the factory is still unused.
    pub fn is_pending(&self) -> (pending: bool)
        ensures
            pending == (self@.factory is Some),
    {
        self.factory.is_some()
    }
}

/// The registrar can be called with the adapter that holds `factory` for
/// `instance_id`.
pub open spec fn accepts_adapter<F, Reg: FnOnce(ManagedBevyPaintSource<F>) -> u64>(
    registrar: Reg,
    instance_id: usize,
    factory: F,
) -> bool {
    forall|adapter: ManagedBevyPaintSource<F>|
        adapter@ == (PaintSourceView { instance_id, factory: Some(factory) })
            ==> #[trigger] call_requires(registrar, (adapter,))
}

/// The registrar was called with the adapter that holds `factory` for
/// `instance_id`, and answered with `handle`.
pub open spec fn registered_as<F, Reg: FnOnce(ManagedBevyPaintSource<F>) -> u64>(
    registrar: Reg,
    instance_id: usize,
    factory: F,
    handle: u64,
) -> bool {
    exists|adapter: ManagedBevyPaintSource<F>|
        adapter@ == (PaintSourceView { instance_id, factory: Some(factory) })
            && #[trigger] call_ensures(registrar, (adapter,), handle)
}

/// What the use of the factory does to the registry: a renderer that was built
/// goes into the slot of `id` and is resumed on the device; where building
/// failed, nothing changes.
pub open spec fn built_and_resumed<R: BevyRenderer>(
    pre: RegistryView<R>,
    id: usize,
    device: R::Device,
    outcome: Option<R>,
    post: RegistryView<R>,
) -> bool {
    match outcome {
        Some(built) => {
            &&& is_live(post, id)
            &&& post == with_renderer(pre, id, post[id].renderer->0)
            &&& R::resumed(built, device, post[id].renderer->0)
        },
        None => post == pre,
    }
}

/// What the adapter's `resume` does to the adapter and the registry.
///
/// Where the slot exists without a renderer and the factory is still there, the
/// factory is used up, whatever it answers. If it builds a renderer, the
/// renderer goes into the slot and is resumed on the same device; if it fails,
/// the slot stays without renderer, for good. Where the slot already holds a
/// renderer, that one is resumed and the factory is left alone. Where there is
/// no slot, or neither renderer nor factory, nothing changes.
pub open spec fn adapter_resumed<R: BevyRenderer, F: FnOnce(&R::Device) -> Option<R>>(
    before: PaintSourceView<F>,
    pre: RegistryView<R>,
    device: R::Device,
    after: PaintSourceView<F>,
    post: RegistryView<R>,
) -> bool {
    let id = before.instance_id;
    &&& after.instance_id == id
    &&& if is_dormant(pre, id) && before.factory is Some {
        &&& after.factory is None
        &&& exists|outcome: Option<R>| #[trigger]
            call_ensures(before.factory->0, (&device,), outcome) && built_and_resumed(
                pre,
                id,
                device,
                outcome,
                post,
            )
    } else {
        &&& after.factory == before.factory
        &&& slot_resumed(pre, id, device, post)
    }
}

impl<F> ManagedBevyPaintSource<F> {
    /// The host has a device: build the renderer if the slot still waits for
    /// one, then resume the renderer. This is the only place where a renderer is
    /// built, and the factory can be used here once. A factory that answers
    /// `None` has failed: the slot then stays without a renderer, which the
    /// host sees as not ready, and nothing else is disturbed.
    pub fn resume<R: BevyRenderer>(
        &mut self,
        manager: &mut BevyInstanceManager<R>,
        device: &R::Device,
    ) where F: FnOnce(&R::Device) -> Option<R>
        requires
            old(self)@.factory matches Some(f) ==> call_requires(f, (device,)),
        ensures
            adapter_resumed(old(self)@, old(manager)@, *device, final(self)@, final(manager)@),
    {
        if manager.needs_renderer(&self.instance_id) {
            if let Some(factory) = self.factory.take() {
                let outcome = factory(device);
                if let Some(built) = outcome {
                    let returned = manager.install(&self.instance_id, built);
                    assert(returned is None);
                    manager.resume(&self.instance_id, device);
                    proof {
                        let id = self.instance_id;
                        let resumed = manager@[id].renderer->0;
                        assert(manager@ =~= with_renderer(old(manager)@, id, resumed));
                        assert(R::resumed(built, *device, resumed));
                    }
                }
                assert(built_and_resumed(
                    old(manager)@,
                    self.instance_id,
                    *device,
                    outcome,
                    manager@,
                ));
                return ;
            }
        }
        manager.resume(&self.instance_id, device);
    }

    /// The hosting surface went out of sight: the renderer, if built, suspends.
    pub fn suspend<R: BevyRenderer>(&mut self, manager: &mut BevyInstanceManager<R>)
        ensures
            final(self)@ == old(self)@,
            slot_suspended(old(manager)@, old(self)@.instance_id, final(manager)@),
    {
        manager.suspend(&self.instance_id);
    }

    /// The host paints a frame: the renderer, if built, renders at the given
    /// size. `None` means not ready yet, never an error.
    pub fn render<'a, R: BevyRenderer>(
        &mut self,
        manager: &mut BevyInstanceManager<R>,
        ctx: R::Context<'a>,
        width: u32,
        height: u32,
    ) -> (texture: Option<R::Texture>)
        ensures
            final(self)@ == old(self)@,
            slot_rendered(
                old(manager)@,
                old(self)@.instance_id,
                ctx,
                width,
                height,
                final(manager)@,
                texture,
            ),
    {
        manager.render(&self.instance_id, ctx, width, height)
    }
}

} // verus!

//! The instance manager: the registry of renderer slots and its operations.

use std::collections::HashMap;
use vstd::prelude::*;
use vstd::std_specs::iter::IteratorSpec;
use crate::model::{
    disposed, installed, is_dormant, is_live, mounted, sent, slot_rendered, slot_resumed,
    slot_suspended, torn_down, unmounted, with_renderer, Disposal, RegistryView, SlotView,
};
use crate::paint::{accepts_adapter, registered_as, ManagedBevyPaintSource};
use crate::renderer::{BevyMessage, BevyRenderer};
use crate::signal::SignalUpdate;

verus! {

/// Identity of one logical renderer instance: a stable token from the UI
/// framework, the same across remounts.
pub type BevyInstanceId = usize;

/// One slot: the renderer once built, the handle of the registered paint
/// adapter, and the number of mounts.
pub(crate) struct BevyInstance<R> {
    renderer: Option<R>,
    paint_source_id: Option<u64>,
    ref_count: usize,
}

impl<R> BevyInstance<R> {
    /// A slot is only ever stored with the handle of its registered adapter.
    #[verifier::type_invariant]
    spec fn registered(&self) -> bool {
        self.paint_source_id is Some
    }

    pub(crate) closed spec fn view(&self) -> SlotView<R> {
        SlotView {
            renderer: self.renderer,
            paint_source_id: self.paint_source_id->0,
            ref_count: self.ref_count as nat,
        }
    }
}

impl<R> BevyInstance<R> {
    /// Splits the slot into its renderer and the slot without it.
    fn take_renderer(self) -> (parts: (Option<R>, Self))
        ensures
            parts.0 == self@.renderer,
            parts.1@ == (SlotView { renderer: None, ..self@ }),
    {
        proof {
            use_type_invariant(&self);
        }
        let BevyInstance { renderer, paint_source_id, ref_count } = self;
        (renderer, BevyInstance { renderer: None, paint_source_id, ref_count })
    }

    /// The slot with `renderer` in it.
    fn put_renderer(self, renderer: R) -> (slot: Self)
        ensures
            slot@ == (SlotView { renderer: Some(renderer), ..self@ }),
    {
        proof {
            use_type_invariant(&self);
        }
        let BevyInstance { renderer: _, paint_source_id, ref_count } = self;
        BevyInstance { renderer: Some(renderer), paint_source_id, ref_count }
    }
}

impl<R: BevyRenderer> BevyInstance<R> {
    /// Ends the slot: a renderer in it is shut down and handed back.
    fn shutdown(self) -> (after: Option<R>)
        ensures
            match self@.renderer {
                Some(before) => after is Some && R::shut_down(before, after->0),
                None => after is None,
            },
    {
        match self.renderer {
            Some(mut renderer) => {
                renderer.shutdown();
                Some(renderer)
            },
            None => None,
        }
    }
}

/// The registry of renderer slots, keyed by instance identity.
pub struct BevyInstanceManager<R: BevyRenderer> {
    instances: HashMap<BevyInstanceId, BevyInstance<R>>,
}

impl<R: BevyRenderer> View for BevyInstanceManager<R> {
    type V = RegistryView<R>;

    closed spec fn view(&self) -> RegistryView<R> {
        Map::new(
            |id: usize| self.instances@.contains_key(id),
            |id: usize| self.instances@[id]@,
        )
    }
}

impl<R: BevyRenderer> BevyInstanceManager<R> {
    /// An empty registry.
    pub fn new() -> (manager: Self)
        ensures
            manager@ == Map::<usize, SlotView<R>>::empty(),
    {
        let manager = BevyInstanceManager { instances: HashMap::new() };
        manager
    }

    /// Number of slots, dormant ones included.
    pub fn len(&self) -> (n: usize)
        ensures
            n == self@.len(),
    {
        assert(self@.dom() =~= self.instances@.dom());
        self.instances.len()
    }

    /// The identities that have a slot, each once, in no particular order.
    pub fn ids(&self) -> (ids: Vec<BevyInstanceId>)
        ensures
            ids@.to_set() == self@.dom(),
            ids@.no_duplicates(),
    {
        let mut ids: Vec<BevyInstanceId> = Vec::new();
        let ghost keys = self.instances.keys().remaining();
        for id in it: self.instances.keys()
            invariant
                it.seq() == keys,
                ids@ == keys.take(it.index()).unref(),
        {
            ids.push(*id);
        }
        assert(ids@ =~= keys.unref());
        ids
    }

    /// Whether `instance_id` has a slot.
    pub fn contains(&self, instance_id: &BevyInstanceId) -> (known: bool)
        ensures
            known == self@.contains_key(*instance_id),
    {
        self.instances.contains_key(instance_id)
    }

    /// The reference count of `instance_id`, if it has a slot.
    pub fn ref_count(&self, instance_id: &BevyInstanceId) -> (count: Option<usize>)
        ensures
            match count {
                Some(c) => self@.contains_key(*instance_id) && c == self@[*instance_id].ref_count,
                None => !self@.contains_key(*instance_id),
            },
    {
        match self.instances.get(instance_id) {
            Some(instance) => Some(instance.ref_count),
            None => None,
        }
    }

    /// The handle of the paint adapter of `instance_id`, if it has a slot.
    pub fn paint_source_id(&self, instance_id: &BevyInstanceId) -> (handle: Option<u64>)
        ensures
            handle == if self@.contains_key(*instance_id) {
                Some(self@[*instance_id].paint_source_id)
            } else {
                None
            },
    {
        match self.instances.get(instance_id) {
            Some(instance) => {
                proof {
                    use_type_invariant(instance);
                }
                instance.paint_source_id
            },
            None => None,
        }
    }

    /// Whether the slot of `instance_id` holds a renderer.
    pub fn has_renderer(&self, instance_id: &BevyInstanceId) -> (live: bool)
        ensures
            live == is_live(self@, *instance_id),
    {
        match self.instances.get(instance_id) {
            Some(instance) => instance.renderer.is_some(),
            None => false,
        }
    }

    /// The renderer of `instance_id`, if its slot holds one.
    pub fn renderer(&self, instance_id: &BevyInstanceId) -> (renderer: Option<&R>)
        ensures
            match renderer {
                Some(r) => is_live(self@, *instance_id) && *r == self@[*instance_id].renderer->0,
                None => !is_live(self@, *instance_id),
            },
    {
        match self.instances.get(instance_id) {
            Some(instance) => instance.renderer.as_ref(),
            None => None,
        }
    }

    /// Mounts `instance_id` and returns the handle of its paint adapter.
    ///
    /// A known identity gains one reference; `registrar` and `factory` are
    /// dropped unused. A new identity gets a slot with one reference and no
    /// renderer: `factory` is wrapped in a paint adapter, the adapter is handed
    /// to `registrar`, and the handle that comes back is stored and returned.
    /// The renderer is never built here.
    pub fn get_or_create<Reg, F>(
        &mut self,
        instance_id: BevyInstanceId,
        registrar: Reg,
        factory: F,
    ) -> (handle: u64) where
        Reg: FnOnce(ManagedBevyPaintSource<F>) -> u64,
        F: FnOnce(&R::Device) -> Option<R>,

        requires
            !old(self)@.contains_key(instance_id) ==> accepts_adapter(
                registrar,
                instance_id,
                factory,
            ),
        ensures
            final(self)@ == mounted(old(self)@, instance_id, handle),
            old(self)@.contains_key(instance_id) ==> handle == old(
                self,
            )@[instance_id].paint_source_id,
            !old(self)@.contains_key(instance_id) ==> registered_as(
                registrar,
                instance_id,
                factory,
                handle,
            ),
    {
        match self.instances.remove(&instance_id) {
            Some(mut instance) => {
                proof {
                    use_type_invariant(&instance);
                }
                if instance.ref_count < usize::MAX {
                    instance.ref_count = instance.ref_count + 1;
                }
                let handle = instance.paint_source_id.unwrap();
                self.instances.insert(instance_id, instance);
                handle
            },
            None => {
                let paint_source = ManagedBevyPaintSource::new(instance_id, factory);
                let handle = registrar(paint_source);
                let instance = BevyInstance {
                    renderer: None,
                    paint_source_id: Some(handle),
                    ref_count: 1,
                };
                self.instances.insert(instance_id, instance);
                handle
            },
        }
    }

    /// Unmounts `instance_id`: its slot loses one reference. The slot stays, also
    /// at zero references, so that a remount finds the renderer warm. A release
    /// at zero, or of an unknown identity, changes nothing.
    pub fn release(&mut self, instance_id: &BevyInstanceId)
        ensures
            final(self)@ == unmounted(old(self)@, *instance_id),
    {
        match self.instances.remove(instance_id) {
            Some(mut instance) => {
                proof {
                    use_type_invariant(&instance);
                }
                if instance.ref_count > 0 {
                    instance.ref_count = instance.ref_count - 1;
                }
                self.instances.insert(*instance_id, instance);
            },
            None => {
            },
        }
    }

    /// Hands `msg` to the renderer of `instance_id`. Where the identity has no
    /// slot, or the slot no renderer yet, the message is dropped: that is
    /// expected before the first resume and is no error.
    pub fn send_message(&mut self, instance_id: &BevyInstanceId, msg: BevyMessage<R::Payload>)
        ensures
            sent(old(self)@, *instance_id, msg, final(self)@),
    {
        match self.instances.remove(instance_id) {
            Some(instance) => {
                let (renderer, slot) = instance.take_renderer();
                match renderer {
                    Some(mut renderer) => {
                        renderer.handle_message(msg);
                        self.instances.insert(*instance_id, slot.put_renderer(renderer));
                        assert(self@ =~= with_renderer(old(self)@, *instance_id, renderer));
                    },
                    None => {
                        self.instances.insert(*instance_id, slot);
                        assert(self@ =~= old(self)@);
                    },
                }
            },
            None => {
                assert(self@ =~= old(self)@);
            },
        }
    }

    /// Sends a signal update to the renderer of `instance_id`, as a message.
    pub fn send_signal(&mut self, instance_id: &BevyInstanceId, update: SignalUpdate)
        ensures
            sent(old(self)@, *instance_id, BevyMessage::Signal(update), final(self)@),
    {
        self.send_message(instance_id, BevyMessage::Signal(update));
    }

    /// Whether `instance_id` has a slot that still waits for its renderer.
    pub fn needs_renderer(&self, instance_id: &BevyInstanceId) -> (dormant: bool)
        ensures
            dormant == is_dormant(self@, *instance_id),
    {
        match self.instances.get(instance_id) {
            Some(instance) => instance.renderer.is_none(),
            None => false,
        }
    }

    /// Puts `renderer` into the slot of `instance_id` if the slot exists and is
    /// empty. Otherwise nothing changes and the renderer is handed back. Only
    /// the paint adapter installs, on resume.
    pub(crate) fn install(
        &mut self,
        instance_id: &BevyInstanceId,
        renderer: R,
    ) -> (returned: Option<R>)
        ensures
            installed(old(self)@, *instance_id, renderer, final(self)@, returned),
    {
        match self.instances.remove(instance_id) {
            Some(instance) => {
                if instance.renderer.is_none() {
                    self.instances.insert(*instance_id, instance.put_renderer(renderer));
                    assert(self@ =~= with_renderer(old(self)@, *instance_id, renderer));
                    None
                } else {
                    self.instances.insert(*instance_id, instance);
                    assert(self@ =~= old(self)@);
                    Some(renderer)
                }
            },
            None => {
                assert(self@ =~= old(self)@);
                Some(renderer)
            },
        }
    }

    /// Forwards `resume` to the renderer of `instance_id`, if there is one.
    pub fn resume(&mut self, instance_id: &BevyInstanceId, device: &R::Device)
        ensures
            slot_resumed(old(self)@, *instance_id, *device, final(self)@),
    {
        match self.instances.remove(instance_id) {
            Some(instance) => {
                let (renderer, slot) = instance.take_renderer();
                match renderer {
                    Some(mut renderer) => {
                        renderer.resume(device);
                        self.instances.insert(*instance_id, slot.put_renderer(renderer));
                        assert(self@ =~= with_renderer(old(self)@, *instance_id, renderer));
                    },
                    None => {
                        self.instances.insert(*instance_id, slot);
                        assert(self@ =~= old(self)@);
                    },
                }
            },
            None => {
                assert(self@ =~= old(self)@);
            },
        }
    }

    /// Forwards `suspend` to the renderer of `instance_id`, if there is one.
    pub fn suspend(&mut self, instance_id: &BevyInstanceId)
        ensures
            slot_suspended(old(self)@, *instance_id, final(self)@),
    {
        match self.instances.remove(instance_id) {
            Some(instance) => {
                let (renderer, slot) = instance.take_renderer();
                match renderer {
                    Some(mut renderer) => {
                        renderer.suspend();
                        self.instances.insert(*instance_id, slot.put_renderer(renderer));
                        assert(self@ =~= with_renderer(old(self)@, *instance_id, renderer));
                    },
                    None => {
                        self.instances.insert(*instance_id, slot);
                        assert(self@ =~= old(self)@);
                    },
                }
            },
            None => {
                assert(self@ =~= old(self)@);
            },
        }
    }

    /// Forwards `render` to the renderer of `instance_id` and hands its answer
    /// on. Without a renderer there is no texture: the host is to try again on
    /// the next frame.
    pub fn render<'a>(
        &mut self,
        instance_id: &BevyInstanceId,
        ctx: R::Context<'a>,
        width: u32,
        height: u32,
    ) -> (texture: Option<R::Texture>)
        ensures
            slot_rendered(old(self)@, *instance_id, ctx, width, height, final(self)@, texture),
    {
        match self.instances.remove(instance_id) {
            Some(instance) => {
                let (renderer, slot) = instance.take_renderer();
                match renderer {
                    Some(mut renderer) => {
                        let texture = renderer.render(ctx, width, height);
                        self.instances.insert(*instance_id, slot.put_renderer(renderer));
                        assert(self@ =~= with_renderer(old(self)@, *instance_id, renderer));
                        texture
                    },
                    None => {
                        self.instances.insert(*instance_id, slot);
                        assert(self@ =~= old(self)@);
                        None
                    },
                }
            },
            None => {
                assert(self@ =~= old(self)@);
                None
            },
        }
    }

    /// Removes the slot of `instance_id` for good. A renderer in it is shut
    /// down, once, and handed back so that the caller drops it. This is the only
    /// operation that ends a slot; reference counts play no part in it.
    pub fn dispose(&mut self, instance_id: &BevyInstanceId) -> (outcome: Disposal<R>)
        ensures
            disposed(old(self)@, *instance_id, final(self)@, outcome),
    {
        match self.instances.remove(instance_id) {
            Some(instance) => {
                assert(self@ =~= old(self)@.remove(*instance_id));
                match instance.shutdown() {
                    Some(renderer) => Disposal::ShutDown(renderer),
                    None => Disposal::Dormant,
                }
            },
            None => {
                assert(self@ =~= old(self)@.remove(*instance_id));
                Disposal::Unknown
            },
        }
    }
}

/// The first `k + 1` elements of a sequence are its first `k` and the one at `k`,
/// which is new among them where the sequence has no duplicates.
proof fn lemma_take_one_more(ids: Seq<usize>, k: int)
    requires
        0 <= k < ids.len(),
    ensures
        forall|id: usize| #[trigger]
            ids.take(k + 1).contains(id) <==> ids.take(k).contains(id) || id == ids[k],
        ids.no_duplicates() ==> !ids.take(k).contains(ids[k]),
{
    let shorter = ids.take(k);
    let longer = ids.take(k + 1);
    assert forall|id: usize| #[trigger] longer.contains(id) <==> shorter.contains(id) || id
        == ids[k] by {
        if shorter.contains(id) {
            let j = choose|j: int| 0 <= j < k && shorter[j] == id;
            assert(longer[j] == id);
        }
        if id == ids[k] {
            assert(longer[k] == id);
        }
        if longer.contains(id) {
            let j = choose|j: int| 0 <= j < k + 1 && longer[j] == id;
            if j < k {
                assert(shorter[j] == id);
            }
        }
    }
    if ids.no_duplicates() && shorter.contains(ids[k]) {
        let j = choose|j: int| 0 <= j < k && shorter[j] == ids[k];
        assert(ids[j] == ids[k]);
    }
}

impl<R: BevyRenderer> BevyInstanceManager<R> {
    /// Tears the registry down: every slot is removed, and every renderer is
    /// shut down, once, and handed back with its identity so that the caller
    /// drops it. The order is that of the table and means nothing.
    pub fn dispose_all(&mut self) -> (ended: Vec<(BevyInstanceId, R)>)
        ensures
            final(self)@ == Map::<usize, SlotView<R>>::empty(),
            torn_down(old(self)@, ended@),
    {
        let ids = self.ids();
        let mut ended: Vec<(BevyInstanceId, R)> = Vec::new();
        let mut k: usize = 0;
        while k < ids.len()
            invariant
                k <= ids.len(),
                ids@.to_set() == old(self)@.dom(),
                ids@.no_duplicates(),
                forall|id: usize| #[trigger]
                    self@.contains_key(id) <==> old(self)@.contains_key(id) && !ids@.take(
                        k as int,
                    ).contains(id),
                forall|id: usize| self@.contains_key(id) ==> #[trigger] self@[id] == old(self)@[id],
                forall|i: int|
                    0 <= i < ended@.len() ==> ids@.take(k as int).contains((#[trigger] ended@[i]).0)
                        && is_live(old(self)@, ended@[i].0) && R::shut_down(
                        old(self)@[ended@[i].0].renderer->0,
                        ended@[i].1,
                    ),
                forall|i: int, j: int|
                    0 <= i < j < ended@.len() ==> (#[trigger] ended@[i]).0 != (
                    #[trigger] ended@[j]).0,
                forall|j: int|
                    0 <= j < k && is_live(old(self)@, #[trigger] ids@[j]) ==> exists|i: int|
                        0 <= i < ended@.len() && (#[trigger] ended@[i]).0 == ids@[j],
            decreases ids.len() - k,
        {
            let id = ids[k];
            let ghost ended_before = ended@;
            proof {
                lemma_take_one_more(ids@, k as int);
            }
            match self.dispose(&id) {
                Disposal::ShutDown(renderer) => {
                    ended.push((id, renderer));
                },
                _ => {},
            }
            assert forall|j: int|
                0 <= j < k + 1 && is_live(old(self)@, #[trigger] ids@[j]) implies exists|i: int|
                0 <= i < ended@.len() && (#[trigger] ended@[i]).0 == ids@[j] by {
                if j < k {
                    let i = choose|i: int|
                        0 <= i < ended_before.len() && (#[trigger] ended_before[i]).0 == ids@[j];
                    assert(ended@[i] == ended_before[i]);
                } else {
                    assert(ended@[ended@.len() - 1].0 == id);
                }
            }
            k = k + 1;
        }
        assert(ids@.take(k as int) =~= ids@);
        assert forall|id: usize| #[trigger] is_live(old(self)@, id) implies exists|i: int|
            0 <= i < ended@.len() && (#[trigger] ended@[i]).0 == id by {
            assert(ids@.to_set().contains(id));
        }
        ended
    }
}

impl<R: BevyRenderer> Default for BevyInstanceManager<R> {
    fn default() -> (manager: Self)
        ensures
            manager@ == Map::<usize, SlotView<R>>::empty(),
    {
        BevyInstanceManager::new()
    }
}

} // verus!

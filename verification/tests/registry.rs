use std::sync::atomic::{AtomicUsize, Ordering};
use std::sync::Arc;

use dioxus_bevy::{
    BevyInstanceManager, BevyMessage, BevyMessageSender, BevyRenderer, Disposal,
    ManagedBevyPaintSource,
};

const A: usize = 1;
const B: usize = 2;

/// A renderer that counts what happens to it.
#[derive(Debug, PartialEq)]
struct Probe {
    name: &'static str,
    device: u32,
    messages: Vec<u64>,
    resumes: u32,
    suspends: u32,
    renders: u32,
    shutdowns: u32,
}

impl Probe {
    fn new(name: &'static str, device: u32) -> Self {
        Probe {
            name,
            device,
            messages: Vec::new(),
            resumes: 0,
            suspends: 0,
            renders: 0,
            shutdowns: 0,
        }
    }
}

impl BevyRenderer for Probe {
    type Device = u32;
    type Context<'a> = &'a str;
    type Texture = (u32, u32, u32);
    type Payload = u64;

    fn render<'a>(&mut self, _ctx: &'a str, width: u32, height: u32) -> Option<(u32, u32, u32)> {
        self.renders += 1;
        if width == 0 || height == 0 {
            None
        } else {
            Some((width, height, self.renders))
        }
    }

    fn handle_message(&mut self, msg: BevyMessage<u64>) {
        if let BevyMessage::Payload(n) = msg {
            self.messages.push(n);
        }
    }

    fn suspend(&mut self) {
        self.suspends += 1;
    }

    fn resume(&mut self, device: &u32) {
        self.device = *device;
        self.resumes += 1;
    }

    fn shutdown(&mut self) {
        self.shutdowns += 1;
    }
}

type Factory = Box<dyn FnOnce(&u32) -> Option<Probe>>;

/// Stands for the host's paint pipeline: it keeps the adapters it is given and
/// numbers them from 100.
struct Host {
    adapters: Vec<ManagedBevyPaintSource<Factory>>,
}

impl Host {
    fn new() -> Self {
        Host { adapters: Vec::new() }
    }

    fn register(&mut self, adapter: ManagedBevyPaintSource<Factory>) -> u64 {
        self.adapters.push(adapter);
        99 + self.adapters.len() as u64
    }
}

fn counting_factory(name: &'static str, built: &Arc<AtomicUsize>) -> Factory {
    let built = built.clone();
    Box::new(move |device: &u32| {
        built.fetch_add(1, Ordering::SeqCst);
        Some(Probe::new(name, *device))
    })
}

fn failing_factory(tried: &Arc<AtomicUsize>) -> Factory {
    let tried = tried.clone();
    Box::new(move |_device: &u32| {
        tried.fetch_add(1, Ordering::SeqCst);
        None
    })
}

fn mount(
    manager: &mut BevyInstanceManager<Probe>,
    host: &mut Host,
    id: usize,
    name: &'static str,
    built: &Arc<AtomicUsize>,
) -> u64 {
    manager.get_or_create(id, |adapter| host.register(adapter), counting_factory(name, built))
}

#[test]
fn new_manager_is_empty() {
    let manager: BevyInstanceManager<Probe> = BevyInstanceManager::new();
    assert_eq!(manager.len(), 0);
    assert!(!manager.contains(&A));
    assert_eq!(manager.ref_count(&A), None);
    assert_eq!(manager.paint_source_id(&A), None);
    assert!(!manager.has_renderer(&A));
    assert!(manager.renderer(&A).is_none());
    let other: BevyInstanceManager<Probe> = Default::default();
    assert_eq!(other.len(), 0);
}

#[test]
fn first_mount_registers_an_adapter_and_builds_nothing() {
    let built = Arc::new(AtomicUsize::new(0));
    let mut manager = BevyInstanceManager::new();
    let mut host = Host::new();
    let handle = mount(&mut manager, &mut host, A, "a", &built);
    assert_eq!(handle, 100);
    assert_eq!(host.adapters.len(), 1);
    assert_eq!(host.adapters[0].id(), A);
    assert!(host.adapters[0].is_pending());
    assert_eq!(manager.len(), 1);
    assert_eq!(manager.ref_count(&A), Some(1));
    assert_eq!(manager.paint_source_id(&A), Some(100));
    assert!(!manager.has_renderer(&A));
    assert!(manager.needs_renderer(&A));
    assert_eq!(built.load(Ordering::SeqCst), 0);
}

#[test]
fn second_mount_reuses_the_slot_and_drops_the_factory() {
    let built = Arc::new(AtomicUsize::new(0));
    let mut manager = BevyInstanceManager::new();
    let mut host = Host::new();
    let first = mount(&mut manager, &mut host, A, "a", &built);
    let second = mount(&mut manager, &mut host, A, "other", &built);
    assert_eq!(first, second);
    assert_eq!(host.adapters.len(), 1);
    assert_eq!(manager.len(), 1);
    assert_eq!(manager.ref_count(&A), Some(2));
}

#[test]
fn reference_count_is_mounts_less_releases() {
    let built = Arc::new(AtomicUsize::new(0));
    let mut manager = BevyInstanceManager::new();
    let mut host = Host::new();
    for n in 1..=5usize {
        mount(&mut manager, &mut host, A, "a", &built);
        assert_eq!(manager.ref_count(&A), Some(n));
    }
    for m in 1..=3usize {
        manager.release(&A);
        assert_eq!(manager.ref_count(&A), Some(5 - m));
    }
    mount(&mut manager, &mut host, A, "a", &built);
    assert_eq!(manager.ref_count(&A), Some(3));
}

#[test]
fn release_at_zero_stays_at_zero_and_keeps_the_slot() {
    let built = Arc::new(AtomicUsize::new(0));
    let mut manager = BevyInstanceManager::new();
    let mut host = Host::new();
    mount(&mut manager, &mut host, A, "a", &built);
    manager.release(&A);
    assert_eq!(manager.ref_count(&A), Some(0));
    assert!(manager.contains(&A));
    manager.release(&A);
    manager.release(&A);
    assert_eq!(manager.ref_count(&A), Some(0));
    assert!(manager.contains(&A));
    assert_eq!(manager.paint_source_id(&A), Some(100));
}

#[test]
fn release_of_unknown_identity_changes_nothing() {
    let built = Arc::new(AtomicUsize::new(0));
    let mut manager = BevyInstanceManager::new();
    let mut host = Host::new();
    mount(&mut manager, &mut host, A, "a", &built);
    manager.release(&B);
    assert!(!manager.contains(&B));
    assert_eq!(manager.len(), 1);
    assert_eq!(manager.ref_count(&A), Some(1));
}

#[test]
fn renderer_is_built_by_the_first_resume_only() {
    let built = Arc::new(AtomicUsize::new(0));
    let mut manager = BevyInstanceManager::new();
    let mut host = Host::new();
    mount(&mut manager, &mut host, A, "a", &built);
    mount(&mut manager, &mut host, A, "a", &built);
    manager.release(&A);
    assert_eq!(built.load(Ordering::SeqCst), 0);

    host.adapters[0].resume(&mut manager, &7);
    assert_eq!(built.load(Ordering::SeqCst), 1);
    assert!(!host.adapters[0].is_pending());
    assert!(manager.has_renderer(&A));
    assert!(!manager.needs_renderer(&A));
    {
        let probe = manager.renderer(&A).unwrap();
        assert_eq!(probe.name, "a");
        assert_eq!(probe.device, 7);
        assert_eq!(probe.resumes, 1);
    }

    host.adapters[0].resume(&mut manager, &8);
    manager.release(&A);
    mount(&mut manager, &mut host, A, "a", &built);
    host.adapters[0].resume(&mut manager, &9);
    assert_eq!(built.load(Ordering::SeqCst), 1);
    let probe = manager.renderer(&A).unwrap();
    assert_eq!(probe.device, 9);
    assert_eq!(probe.resumes, 3);
    assert_eq!(host.adapters.len(), 1);
}

#[test]
fn resume_without_a_slot_keeps_the_factory() {
    let built = Arc::new(AtomicUsize::new(0));
    let mut manager: BevyInstanceManager<Probe> = BevyInstanceManager::new();
    let mut adapter = ManagedBevyPaintSource::new(A, counting_factory("a", &built));
    adapter.resume(&mut manager, &1);
    assert!(adapter.is_pending());
    assert_eq!(built.load(Ordering::SeqCst), 0);
    assert_eq!(manager.len(), 0);
    adapter.suspend(&mut manager);
    assert_eq!(adapter.render(&mut manager, "ctx", 4, 4), None);
    assert_eq!(manager.len(), 0);
}

#[test]
fn suspend_and_render_before_resume_do_nothing() {
    let built = Arc::new(AtomicUsize::new(0));
    let mut manager = BevyInstanceManager::new();
    let mut host = Host::new();
    mount(&mut manager, &mut host, A, "a", &built);
    host.adapters[0].suspend(&mut manager);
    assert_eq!(host.adapters[0].render(&mut manager, "ctx", 640, 480), None);
    assert!(!manager.has_renderer(&A));
    assert!(host.adapters[0].is_pending());
    assert_eq!(built.load(Ordering::SeqCst), 0);
}

#[test]
fn suspend_and_render_reach_the_renderer_after_resume() {
    let built = Arc::new(AtomicUsize::new(0));
    let mut manager = BevyInstanceManager::new();
    let mut host = Host::new();
    mount(&mut manager, &mut host, A, "a", &built);
    host.adapters[0].resume(&mut manager, &3);
    assert_eq!(host.adapters[0].render(&mut manager, "ctx", 640, 480), Some((640, 480, 1)));
    assert_eq!(host.adapters[0].render(&mut manager, "ctx", 0, 480), None);
    assert_eq!(host.adapters[0].render(&mut manager, "ctx", 320, 200), Some((320, 200, 3)));
    host.adapters[0].suspend(&mut manager);
    let probe = manager.renderer(&A).unwrap();
    assert_eq!(probe.renders, 3);
    assert_eq!(probe.suspends, 1);
    assert_eq!(manager.ref_count(&A), Some(1));
}

#[test]
fn messages_before_resume_are_dropped_and_later_ones_arrive_in_order() {
    let built = Arc::new(AtomicUsize::new(0));
    let mut manager = BevyInstanceManager::new();
    let mut host = Host::new();
    mount(&mut manager, &mut host, A, "a", &built);
    manager.send_message(&A, BevyMessage::Payload(1));
    manager.send_message(&A, BevyMessage::Payload(2));
    assert!(!manager.has_renderer(&A));
    host.adapters[0].resume(&mut manager, &0);
    assert_eq!(manager.renderer(&A).unwrap().messages, Vec::<u64>::new());
    for n in [30u64, 10, 20, 10] {
        manager.send_message(&A, BevyMessage::Payload(n));
    }
    assert_eq!(manager.renderer(&A).unwrap().messages, vec![30, 10, 20, 10]);
}

#[test]
fn message_to_unknown_identity_is_dropped() {
    let mut manager: BevyInstanceManager<Probe> = BevyInstanceManager::new();
    manager.send_message(&A, BevyMessage::Payload(1));
    assert_eq!(manager.len(), 0);
}

#[test]
fn remount_after_zero_references_reuses_the_renderer_and_its_state() {
    let built = Arc::new(AtomicUsize::new(0));
    let mut manager = BevyInstanceManager::new();
    let mut host = Host::new();
    mount(&mut manager, &mut host, A, "a", &built);
    mount(&mut manager, &mut host, A, "a", &built);
    assert_eq!(manager.ref_count(&A), Some(2));
    host.adapters[0].resume(&mut manager, &5);
    manager.send_message(&A, BevyMessage::Payload(41));
    manager.send_message(&A, BevyMessage::Payload(42));
    manager.release(&A);
    manager.release(&A);
    assert_eq!(manager.ref_count(&A), Some(0));
    assert!(manager.has_renderer(&A));
    let handle = mount(&mut manager, &mut host, A, "rebuilt", &built);
    assert_eq!(handle, 100);
    assert_eq!(manager.ref_count(&A), Some(1));
    assert_eq!(built.load(Ordering::SeqCst), 1);
    assert_eq!(host.adapters.len(), 1);
    let probe = manager.renderer(&A).unwrap();
    assert_eq!(probe.name, "a");
    assert_eq!(probe.messages, vec![41, 42]);
    assert_eq!(probe.resumes, 1);
}

#[test]
fn two_identities_have_independent_renderers() {
    let built = Arc::new(AtomicUsize::new(0));
    let mut manager = BevyInstanceManager::new();
    let mut host = Host::new();
    let a = mount(&mut manager, &mut host, A, "a", &built);
    let b = mount(&mut manager, &mut host, B, "b", &built);
    assert_eq!((a, b), (100, 101));
    host.adapters[0].resume(&mut manager, &1);
    host.adapters[1].resume(&mut manager, &2);
    assert_eq!(built.load(Ordering::SeqCst), 2);
    manager.send_message(&A, BevyMessage::Payload(7));
    manager.send_message(&A, BevyMessage::Payload(8));
    assert_eq!(manager.renderer(&A).unwrap().messages, vec![7, 8]);
    assert_eq!(manager.renderer(&B).unwrap().messages, Vec::<u64>::new());
    assert_eq!(manager.renderer(&A).unwrap().name, "a");
    assert_eq!(manager.renderer(&B).unwrap().name, "b");
    assert_eq!(manager.renderer(&A).unwrap().device, 1);
    assert_eq!(manager.renderer(&B).unwrap().device, 2);
    manager.release(&A);
    assert_eq!(manager.ref_count(&A), Some(0));
    assert_eq!(manager.ref_count(&B), Some(1));
}

#[test]
fn dispose_shuts_the_renderer_down_once() {
    let built = Arc::new(AtomicUsize::new(0));
    let mut manager = BevyInstanceManager::new();
    let mut host = Host::new();
    for _ in 0..4 {
        mount(&mut manager, &mut host, A, "a", &built);
    }
    host.adapters[0].resume(&mut manager, &1);
    for _ in 0..4 {
        manager.release(&A);
        mount(&mut manager, &mut host, A, "a", &built);
    }
    assert_eq!(manager.renderer(&A).unwrap().shutdowns, 0);
    match manager.dispose(&A) {
        Disposal::ShutDown(probe) => {
            assert_eq!(probe.shutdowns, 1);
            assert_eq!(probe.name, "a");
        },
        _ => panic!("the slot held a renderer"),
    }
    assert!(!manager.contains(&A));
    assert_eq!(manager.len(), 0);
    assert!(matches!(manager.dispose(&A), Disposal::Unknown));
}

#[test]
fn dispose_of_a_dormant_slot_shuts_nothing_down() {
    let built = Arc::new(AtomicUsize::new(0));
    let mut manager = BevyInstanceManager::new();
    let mut host = Host::new();
    mount(&mut manager, &mut host, A, "a", &built);
    mount(&mut manager, &mut host, B, "b", &built);
    assert!(matches!(manager.dispose(&A), Disposal::Dormant));
    assert!(!manager.contains(&A));
    assert!(manager.contains(&B));
    assert_eq!(built.load(Ordering::SeqCst), 0);
}

#[test]
fn mount_after_dispose_starts_a_new_slot() {
    let built = Arc::new(AtomicUsize::new(0));
    let mut manager = BevyInstanceManager::new();
    let mut host = Host::new();
    mount(&mut manager, &mut host, A, "first", &built);
    host.adapters[0].resume(&mut manager, &1);
    assert!(matches!(manager.dispose(&A), Disposal::ShutDown(_)));
    let handle = mount(&mut manager, &mut host, A, "second", &built);
    assert_eq!(handle, 101);
    assert_eq!(manager.ref_count(&A), Some(1));
    assert!(!manager.has_renderer(&A));
    host.adapters[1].resume(&mut manager, &2);
    assert_eq!(manager.renderer(&A).unwrap().name, "second");
    assert_eq!(built.load(Ordering::SeqCst), 2);
}

#[test]
fn failed_build_leaves_the_slot_not_ready_for_good() {
    let tried = Arc::new(AtomicUsize::new(0));
    let built = Arc::new(AtomicUsize::new(0));
    let mut manager = BevyInstanceManager::new();
    let mut host = Host::new();
    let handle =
        manager.get_or_create(A, |adapter| host.register(adapter), failing_factory(&tried));
    mount(&mut manager, &mut host, B, "b", &built);
    host.adapters[1].resume(&mut manager, &1);

    host.adapters[0].resume(&mut manager, &1);
    assert_eq!(tried.load(Ordering::SeqCst), 1);
    assert!(!host.adapters[0].is_pending());
    assert!(!manager.has_renderer(&A));
    assert!(manager.contains(&A));
    assert_eq!(manager.paint_source_id(&A), Some(handle));
    assert_eq!(manager.ref_count(&A), Some(1));

    host.adapters[0].resume(&mut manager, &2);
    assert_eq!(host.adapters[0].render(&mut manager, "ctx", 8, 8), None);
    manager.send_message(&A, BevyMessage::Payload(1));
    manager.release(&A);
    assert_eq!(mount(&mut manager, &mut host, A, "late", &built), handle);
    host.adapters[0].resume(&mut manager, &3);
    assert_eq!(tried.load(Ordering::SeqCst), 1);
    assert!(!manager.has_renderer(&A));
    assert_eq!(host.adapters.len(), 2);

    assert!(manager.has_renderer(&B));
    assert_eq!(built.load(Ordering::SeqCst), 1);
    assert!(matches!(manager.dispose(&A), Disposal::Dormant));
}

#[test]
fn adapter_of_a_disposed_slot_does_not_rebuild_a_live_one() {
    let built = Arc::new(AtomicUsize::new(0));
    let mut manager = BevyInstanceManager::new();
    let mut host = Host::new();
    mount(&mut manager, &mut host, A, "first", &built);
    assert!(matches!(manager.dispose(&A), Disposal::Dormant));
    mount(&mut manager, &mut host, A, "second", &built);
    host.adapters[1].resume(&mut manager, &1);
    assert_eq!(manager.renderer(&A).unwrap().name, "second");
    host.adapters[0].resume(&mut manager, &2);
    assert!(host.adapters[0].is_pending());
    assert!(!host.adapters[1].is_pending());
    assert_eq!(built.load(Ordering::SeqCst), 1);
    let probe = manager.renderer(&A).unwrap();
    assert_eq!(probe.name, "second");
    assert_eq!(probe.resumes, 2);
    assert_eq!(probe.device, 2);
}

#[test]
fn manager_forwards_without_an_adapter() {
    let built = Arc::new(AtomicUsize::new(0));
    let mut manager = BevyInstanceManager::new();
    let mut host = Host::new();
    mount(&mut manager, &mut host, A, "a", &built);
    manager.resume(&A, &1);
    manager.suspend(&A);
    assert_eq!(manager.render(&A, "ctx", 4, 4), None);
    assert!(!manager.has_renderer(&A));
    host.adapters[0].resume(&mut manager, &1);
    manager.resume(&A, &2);
    manager.suspend(&A);
    assert_eq!(manager.render(&A, "ctx", 4, 4), Some((4, 4, 1)));
    assert_eq!(manager.render(&B, "ctx", 4, 4), None);
    let probe = manager.renderer(&A).unwrap();
    assert_eq!((probe.resumes, probe.suspends, probe.renders, probe.device), (2, 1, 1, 2));
}

#[test]
fn message_sender_reaches_its_identity() {
    let built = Arc::new(AtomicUsize::new(0));
    let mut manager = BevyInstanceManager::new();
    let mut host = Host::new();
    mount(&mut manager, &mut host, A, "a", &built);
    mount(&mut manager, &mut host, B, "b", &built);
    host.adapters[0].resume(&mut manager, &1);
    host.adapters[1].resume(&mut manager, &1);
    let to_b = BevyMessageSender::new(B);
    assert_eq!(to_b.instance_id(), B);
    to_b.send(&mut manager, BevyMessage::Payload(5));
    to_b.send_signal_update(&mut manager, "ignored", true);
    assert_eq!(manager.renderer(&B).unwrap().messages, vec![5]);
    assert_eq!(manager.renderer(&A).unwrap().messages, Vec::<u64>::new());
}

#[test]
fn ids_lists_every_slot_once() {
    let built = Arc::new(AtomicUsize::new(0));
    let mut manager = BevyInstanceManager::new();
    let mut host = Host::new();
    assert_eq!(manager.ids(), Vec::<usize>::new());
    for id in [7usize, 3, 9, 3, 7] {
        mount(&mut manager, &mut host, id, "x", &built);
    }
    manager.release(&9);
    let mut ids = manager.ids();
    ids.sort();
    assert_eq!(ids, vec![3, 7, 9]);
}

#[test]
fn teardown_shuts_every_renderer_down_once() {
    let built = Arc::new(AtomicUsize::new(0));
    let mut manager = BevyInstanceManager::new();
    let mut host = Host::new();
    mount(&mut manager, &mut host, 1, "one", &built);
    mount(&mut manager, &mut host, 2, "two", &built);
    mount(&mut manager, &mut host, 3, "three", &built);
    mount(&mut manager, &mut host, 3, "three", &built);
    host.adapters[0].resume(&mut manager, &0);
    host.adapters[2].resume(&mut manager, &0);
    manager.release(&1);
    let mut ended = manager.dispose_all();
    ended.sort_by_key(|(id, _)| *id);
    assert_eq!(ended.len(), 2);
    assert_eq!(ended[0].0, 1);
    assert_eq!(ended[0].1.name, "one");
    assert_eq!(ended[0].1.shutdowns, 1);
    assert_eq!(ended[1].0, 3);
    assert_eq!(ended[1].1.name, "three");
    assert_eq!(ended[1].1.shutdowns, 1);
    assert_eq!(manager.len(), 0);
    assert!(manager.dispose_all().is_empty());
}

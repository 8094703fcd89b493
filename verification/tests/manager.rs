use std::sync::atomic::{AtomicBool, AtomicUsize, Ordering};
use std::sync::Arc;

use runloop::RunLoop;
use u2fhid::error::ErrorKind;
use u2fhid::manager::U2FManager;
use u2fhid::platform::PlatformManager;
use u2fhid::poll::{Action, Mode};

fn param(byte: u8) -> Vec<u8> {
    vec![byte; 32]
}

/// A run loop whose worker spins until it is told to stop, counts itself
/// in `running` while it does, and sets `ended` on its way out.
fn spinning_loop(running: &Arc<AtomicUsize>, ended: &Arc<AtomicBool>) -> RunLoop {
    let running = running.clone();
    let ended = ended.clone();
    RunLoop::new(move |alive| {
        running.fetch_add(1, Ordering::SeqCst);
        while alive() {
            std::hint::spin_loop();
        }
        running.fetch_sub(1, Ordering::SeqCst);
        ended.store(true, Ordering::SeqCst);
    })
    .unwrap()
}

#[test]
fn register_refuses_every_wrong_parameter_size() {
    let mut manager = U2FManager::new();
    for len in (0..32usize).chain(33..70) {
        let odd = vec![0u8; len];
        assert_eq!(
            manager.register(15, odd.clone(), param(2)).err(),
            Some(ErrorKind::InvalidInput)
        );
        assert_eq!(manager.register(15, param(1), odd).err(), Some(ErrorKind::InvalidInput));
    }
}

#[test]
fn sign_refuses_every_wrong_parameter_size() {
    let mut manager = U2FManager::new();
    for len in (0..32usize).chain(33..70) {
        let odd = vec![0u8; len];
        assert_eq!(
            manager.sign(15, odd.clone(), param(2), vec![3; 64]).err(),
            Some(ErrorKind::InvalidInput)
        );
        assert_eq!(
            manager.sign(15, param(1), odd, vec![3; 64]).err(),
            Some(ErrorKind::InvalidInput)
        );
    }
}

#[test]
fn sign_refuses_key_handles_over_256_bytes() {
    let mut manager = U2FManager::new();
    for len in [257usize, 258, 300, 1024, 65536] {
        assert_eq!(
            manager.sign(15, param(1), param(2), vec![0; len]).err(),
            Some(ErrorKind::InvalidInput)
        );
    }
    for len in [0usize, 1, 64, 255, 256] {
        assert!(manager.sign(15, param(1), param(2), vec![0; len]).is_ok());
    }
}

#[test]
fn register_hands_out_a_fresh_poller() {
    let mut manager = U2FManager::new();
    let poller = manager.register(15, param(1), param(2)).unwrap();
    assert_eq!(poller.timeout(), 15);
    assert_eq!(poller.mode(), Mode::Register);
    assert_eq!(poller.action(), Action::OpenMonitor);
}

#[test]
fn sign_hands_out_a_fresh_poller() {
    let mut manager = U2FManager::new();
    let poller = manager.sign(20, param(1), param(2), vec![9; 80]).unwrap();
    assert_eq!(poller.timeout(), 20);
    assert_eq!(poller.mode(), Mode::Sign);
    assert_eq!(poller.action(), Action::OpenMonitor);
}

#[test]
fn cancel_without_an_operation_does_nothing() {
    let mut manager = U2FManager::new();
    manager.cancel();
    manager.cancel();
    assert!(manager.register(15, param(1), param(2)).is_ok());
    manager.cancel();

    let mut platform = PlatformManager::new();
    platform.cancel();
    platform.cancel();
    assert!(platform.sign(15, param(1), param(2), vec![]).is_ok());
}

#[test]
fn cancel_waits_for_the_worker() {
    let running = Arc::new(AtomicUsize::new(0));
    let ended = Arc::new(AtomicBool::new(false));
    let mut manager = U2FManager::new();
    let _poller = manager.register(0, param(1), param(2)).unwrap();
    manager.attach(spinning_loop(&running, &ended));
    assert!(!ended.load(Ordering::SeqCst));
    manager.cancel();
    assert!(ended.load(Ordering::SeqCst));
    assert_eq!(running.load(Ordering::SeqCst), 0);
    manager.cancel();
}

#[test]
fn starting_an_operation_ends_the_previous_worker_first() {
    let running = Arc::new(AtomicUsize::new(0));
    let ended_a = Arc::new(AtomicBool::new(false));
    let ended_b = Arc::new(AtomicBool::new(false));
    let mut manager = U2FManager::new();

    let _a = manager.register(0, param(1), param(2)).unwrap();
    manager.attach(spinning_loop(&running, &ended_a));

    let _b = manager.sign(0, param(1), param(2), vec![7; 32]).unwrap();
    assert!(ended_a.load(Ordering::SeqCst));
    assert_eq!(running.load(Ordering::SeqCst), 0);
    manager.attach(spinning_loop(&running, &ended_b));

    let _c = manager.register(0, param(3), param(4)).unwrap();
    assert!(ended_b.load(Ordering::SeqCst));
    assert_eq!(running.load(Ordering::SeqCst), 0);
}

#[test]
fn refused_call_leaves_the_running_operation_alone() {
    let running = Arc::new(AtomicUsize::new(0));
    let ended = Arc::new(AtomicBool::new(false));
    let mut manager = U2FManager::new();
    let _poller = manager.register(0, param(1), param(2)).unwrap();
    manager.attach(spinning_loop(&running, &ended));

    assert_eq!(manager.register(0, vec![0; 5], param(2)).err(), Some(ErrorKind::InvalidInput));
    assert_eq!(
        manager.sign(0, param(1), param(2), vec![0; 257]).err(),
        Some(ErrorKind::InvalidInput)
    );
    assert!(!ended.load(Ordering::SeqCst));

    manager.cancel();
    assert!(ended.load(Ordering::SeqCst));
}

#[test]
fn attaching_a_second_loop_ends_the_first() {
    let running = Arc::new(AtomicUsize::new(0));
    let ended_a = Arc::new(AtomicBool::new(false));
    let ended_b = Arc::new(AtomicBool::new(false));
    let mut platform = PlatformManager::new();
    platform.attach(spinning_loop(&running, &ended_a));
    platform.attach(spinning_loop(&running, &ended_b));
    assert!(ended_a.load(Ordering::SeqCst));
    assert!(!ended_b.load(Ordering::SeqCst));
    platform.cancel();
    assert!(ended_b.load(Ordering::SeqCst));
    assert_eq!(running.load(Ordering::SeqCst), 0);
}

#[test]
fn platform_manager_cancels_before_it_looks_at_the_sizes() {
    let running = Arc::new(AtomicUsize::new(0));
    let ended = Arc::new(AtomicBool::new(false));
    let mut platform = PlatformManager::new();
    platform.attach(spinning_loop(&running, &ended));
    assert_eq!(platform.register(0, vec![1], vec![2]).err(), Some(ErrorKind::InvalidInput));
    assert!(ended.load(Ordering::SeqCst));
}

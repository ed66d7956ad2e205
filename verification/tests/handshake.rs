use sleepers::sleepers::enter;
use sleepers::sleepers::release;
use sleepers::NotifyAction;
use sleepers::Sleepers;
use sleepers::WaitAction;
use std::sync::Mutex;

#[test]
fn notify_before_wait_returns_at_once() {
    let sleepers = Sleepers::new();
    sleepers.notify_one();
    sleepers.wait();
}

#[test]
fn default_is_ready_to_use() {
    let sleepers = Sleepers::default();
    sleepers.notify_one();
    sleepers.wait();
}

#[test]
fn credit_can_be_left_again_after_it_was_taken() {
    let sleepers = Sleepers::new();
    for _ in 0..3 {
        sleepers.notify_one();
        sleepers.notify_one();
        sleepers.wait();
    }
}

#[test]
fn enter_counts_the_thread_under_the_lock() {
    let lock = Mutex::new(5usize);
    let mut guard = lock.lock().unwrap();
    assert_eq!(enter(&mut guard, false), WaitAction::Park);
    assert_eq!(*guard, 6);
    assert_eq!(enter(&mut guard, true), WaitAction::Resume);
    assert_eq!(*guard, 6);
}

#[test]
fn release_uncounts_one_thread_under_the_lock() {
    let lock = Mutex::new(2usize);
    let mut guard = lock.lock().unwrap();
    assert_eq!(release(&mut guard, false), NotifyAction::Wake);
    assert_eq!(*guard, 1);
    assert_eq!(release(&mut guard, false), NotifyAction::Wake);
    assert_eq!(*guard, 0);
    assert_eq!(release(&mut guard, false), NotifyAction::Credit);
    assert_eq!(*guard, 0);
    assert_eq!(release(&mut guard, true), NotifyAction::Skip);
    assert_eq!(*guard, 0);
}

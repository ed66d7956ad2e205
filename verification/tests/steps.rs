use sleepers::NotifyAction;
use sleepers::ParkState;
use sleepers::WaitAction;

fn state(parked: usize, pending: bool) -> ParkState {
    ParkState { parked, pending }
}

#[test]
fn new_state_is_idle() {
    assert_eq!(ParkState::new(), state(0, false));
}

#[test]
fn wait_with_nothing_owed_parks_and_counts() {
    assert_eq!(state(0, false).wait(), (state(1, false), WaitAction::Park));
    assert_eq!(state(7, false).wait(), (state(8, false), WaitAction::Park));
}

#[test]
fn wait_takes_what_is_owed() {
    assert_eq!(state(0, true).wait(), (state(0, false), WaitAction::Resume));
}

#[test]
fn notify_wakes_one_of_the_counted() {
    assert_eq!(state(3, false).notify_one(), (state(2, false), NotifyAction::Wake));
    assert_eq!(state(1, false).notify_one(), (state(0, false), NotifyAction::Wake));
}

#[test]
fn notify_with_nobody_asleep_leaves_credit() {
    assert_eq!(state(0, false).notify_one(), (state(0, true), NotifyAction::Credit));
}

#[test]
fn notify_with_credit_owed_changes_nothing() {
    assert_eq!(state(0, true).notify_one(), (state(0, true), NotifyAction::Skip));
}

#[test]
fn has_room_up_to_the_last_integer() {
    assert!(state(0, false).has_room());
    assert!(state(usize::MAX - 1, false).has_room());
    assert!(!state(usize::MAX, false).has_room());
    assert!(state(usize::MAX, true).has_room());
    assert_eq!(
        state(usize::MAX - 1, false).wait(),
        (state(usize::MAX, false), WaitAction::Park)
    );
}

#[test]
fn notify_then_wait_does_not_park() {
    let (credited, _) = ParkState::new().notify_one();
    let (after, action) = credited.wait();
    assert_eq!(action, WaitAction::Resume);
    assert_eq!(after, state(0, false));
}

#[test]
fn two_notifies_leave_one_credit() {
    let (once, first) = ParkState::new().notify_one();
    let (twice, second) = once.notify_one();
    assert_eq!(first, NotifyAction::Credit);
    assert_eq!(second, NotifyAction::Skip);
    assert_eq!(twice, state(0, true));
    let (taken, a) = twice.wait();
    assert_eq!(a, WaitAction::Resume);
    let (parked, b) = taken.wait();
    assert_eq!(b, WaitAction::Park);
    assert_eq!(parked, state(1, false));
}

#[test]
fn one_notify_wakes_one_of_two() {
    let (one, _) = ParkState::new().wait();
    let (two, _) = one.wait();
    assert_eq!(two, state(2, false));
    let (left, action) = two.notify_one();
    assert_eq!(action, NotifyAction::Wake);
    assert_eq!(left, state(1, false));
}

#[test]
fn wake_leaves_no_credit_for_a_third_thread() {
    let (parked, b) = ParkState::new().wait();
    assert_eq!(b, WaitAction::Park);
    let (woken, a) = parked.notify_one();
    assert_eq!(a, NotifyAction::Wake);
    assert_eq!(woken, state(0, false));
    let (after, c) = woken.wait();
    assert_eq!(c, WaitAction::Park);
    assert_eq!(after, state(1, false));
}

/// Workers that wait again as soon as they are released, and a notifier that
/// calls once for every wait and never while a credit is owed: every wait is
/// released, and the count always equals the number of blocked workers.
#[test]
fn simulated_pool_releases_every_wait() {
    let workers: usize = 4;
    let rounds: usize = 25;
    let mut shared = ParkState::new();
    let mut blocked = vec![false; workers];
    let mut started = vec![0usize; workers];
    let mut released = 0usize;
    let mut notified = 0usize;
    let mut seed: u64 = 0x2545_f491_4f6c_dd1d;
    while released < workers * rounds {
        seed = seed.wrapping_mul(6364136223846793005).wrapping_add(1442695040888963407);
        let pick = ((seed >> 33) as usize) % (workers + 1);
        if pick == workers {
            if notified < workers * rounds && !shared.pending {
                let (next, action) = shared.notify_one();
                shared = next;
                notified += 1;
                match action {
                    NotifyAction::Wake => {
                        let who = blocked.iter().position(|b| *b).unwrap();
                        blocked[who] = false;
                        released += 1;
                    }
                    NotifyAction::Credit => {}
                    NotifyAction::Skip => unreachable!(),
                }
            }
        } else if !blocked[pick] && started[pick] < rounds {
            assert!(shared.has_room());
            let (next, action) = shared.wait();
            shared = next;
            started[pick] += 1;
            match action {
                WaitAction::Resume => released += 1,
                WaitAction::Park => blocked[pick] = true,
            }
        }
        assert_eq!(shared.parked, blocked.iter().filter(|b| **b).count());
        assert!(!shared.pending || shared.parked == 0);
    }
    assert_eq!(released, workers * rounds);
    assert_eq!(notified, workers * rounds);
    assert_eq!(shared, state(0, false));
}

#[test]
fn stale_read_of_the_flag_leaves_the_same_state() {
    let (seen, a) = state(0, true).notify_one();
    let (missed, b) = state(0, false).notify_one();
    assert_eq!(a, NotifyAction::Skip);
    assert_eq!(b, NotifyAction::Credit);
    assert_eq!(seen, missed);
}

#[test]
fn wait_after_wait_counts_both() {
    let (one, a) = ParkState::new().wait();
    let (two, b) = one.wait();
    assert_eq!(a, WaitAction::Park);
    assert_eq!(b, WaitAction::Park);
    assert_eq!(two, state(2, false));
    let (one_left, _) = two.notify_one();
    let (none_left, _) = one_left.notify_one();
    let (credited, last) = none_left.notify_one();
    assert_eq!(none_left, state(0, false));
    assert_eq!(last, NotifyAction::Credit);
    assert_eq!(credited, state(0, true));
}

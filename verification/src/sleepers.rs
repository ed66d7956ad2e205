//! The place where worker threads go to sleep.
//!
//! [`Sleepers`] keeps the count of sleeping threads under a lock, wakes them
//! through a condition variable, and remembers one notification in an atomic
//! flag. What the two operations decide under the lock is [`enter`] and
//! [`release`], stated over the count that the lock's guard holds; what other
//! threads do to the count and the flag in between no contract here can say,
//! which is why `wait` and `notify_one` themselves carry none. Of
//! [`Sleepers::new`] the contract says what the lock and the flag start with.

use crate::protocol::NotifyAction;
use crate::protocol::Park;
use crate::protocol::ParkState;
use crate::protocol::WaitAction;
use crate::sync::acquire;
use crate::sync::block;
use crate::sync::count_of;
use crate::sync::flag_made_with;
use crate::sync::held;
use crate::sync::lock_made_with;
use crate::sync::new_condvar;
use crate::sync::new_flag;
use crate::sync::new_lock;
use crate::sync::set_count;
use crate::sync::signal;
use std::sync::atomic::AtomicBool;
use std::sync::atomic::Ordering;
use std::sync::Condvar;
use std::sync::Mutex;
use std::sync::MutexGuard;
use vstd::prelude::*;

verus! {

/// The place where worker threads go to sleep.
///
/// As with thread parking, a notification that comes while no thread sleeps
/// is picked up at once by the next thread that tries to go to sleep.
#[derive(Debug)]
pub struct Sleepers {
    /// How many threads are asleep.
    sleep: Mutex<usize>,
    /// Wakes sleeping threads.
    wake: Condvar,
    /// Set if a notification came while nobody slept.
    notified: AtomicBool,
}

/// The part of `wait` that runs under the lock, once the flag has been read
/// as `pending` and cleared: the count moves as the protocol's `wait` step
/// says, and the step's action is returned. The count must have room for one
/// more thread where the thread is to be counted.
pub fn enter(guard: &mut MutexGuard<usize>, pending: bool) -> (action: WaitAction)
    requires
        (ParkState { parked: held(*old(guard)), pending }).can_wait(),
    ensures
        action == (ParkState { parked: held(*old(guard)), pending })@.wait().1,
        held(*final(guard)) == (ParkState { parked: held(*old(guard)), pending })@.wait().0.parked,
{
    let seen = ParkState { parked: count_of(guard), pending };
    let (next, action) = seen.wait();
    set_count(guard, next.parked);
    action
}

/// The part of `notify_one` that runs under the lock, once the flag has been
/// read as `pending`: the count moves as the protocol's `notify_one` step
/// says, and the step's action is returned. Setting the flag, or signalling
/// the thread that left the count, is left to the caller.
pub fn release(guard: &mut MutexGuard<usize>, pending: bool) -> (action: NotifyAction)
    ensures
        action == (ParkState { parked: held(*old(guard)), pending })@.notify_one().1,
        held(*final(guard)) == (ParkState { parked: held(*old(guard)), pending })@.notify_one().0.parked,
{
    let seen = ParkState { parked: count_of(guard), pending };
    let (next, action) = seen.notify_one();
    set_count(guard, next.parked);
    action
}

impl Sleepers {
    /// The state that these sleepers were made with: the count that their
    /// lock was given and the value that their flag was given. It is where
    /// every run of the handshake starts; what the lock and the flag hold
    /// later is for the threads that share them to decide.
    pub closed spec fn made_with(&self) -> Park {
        (ParkState { parked: lock_made_with(self.sleep), pending: flag_made_with(self.notified) })@
    }

    /// Creates a new `Sleepers`: nobody asleep, no notification owed.
    pub fn new() -> (s: Sleepers)
        ensures
            s.made_with() == Park::initial(),
    {
        let start = ParkState::new();
        Sleepers {
            sleep: new_lock(start.parked),
            wake: new_condvar(),
            notified: new_flag(start.pending),
        }
    }

    /// Puts the current thread to sleep, unless a notification is owed: then
    /// the thread takes it and returns at once.
    ///
    /// A return says that a notification occurred, not that there is work.
    /// Should the count of sleeping threads have no room for one more, the
    /// thread returns without sleeping.
    pub fn wait(&self) {
        let mut guard = acquire(&self.sleep);
        let pending = self.notified.swap(false, Ordering::SeqCst);
        let seen = ParkState { parked: count_of(&guard), pending };
        if seen.has_room() {
            match enter(&mut guard, pending) {
                WaitAction::Resume => {},
                WaitAction::Park => {
                    let _back = block(&self.wake, guard);
                },
            }
        }
    }

    /// Notifies one thread: wakes a sleeping one, or else leaves one
    /// notification for the next thread that calls `wait`. With one left
    /// already, nothing is done.
    pub fn notify_one(&self) {
        let pending = self.notified.load(Ordering::SeqCst);
        if !pending {
            let mut guard = acquire(&self.sleep);
            match release(&mut guard, pending) {
                NotifyAction::Skip => {},
                NotifyAction::Wake => {
                    signal(&self.wake);
                },
                NotifyAction::Credit => {
                    self.notified.store(true, Ordering::SeqCst);
                },
            }
        }
    }
}

impl Default for Sleepers {
    /// Creates a new `Sleepers`.
    fn default() -> (s: Sleepers)
        ensures
            s.made_with() == Park::initial(),
    {
        Sleepers::new()
    }
}

} // verus!

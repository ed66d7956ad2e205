//! Runs of the handshake, and what holds of every run.
//!
//! A [`Pool`] is the handshake's state together with the threads that are
//! blocked inside `wait`. Its steps are the calls of `wait` and `notify_one`,
//! each taken as one indivisible event. A [`Floor`] follows the threads more
//! closely, with the flag read outside the lock, and each of its moves is
//! shown to be one such event or none. A thread leaves `wait` only when a
//! `notify_one` releases it: a condition variable that wakes a thread of its
//! own accord is not part of this model.

use crate::protocol::NotifyAction;
use crate::protocol::Park;
use crate::protocol::WaitAction;
use vstd::prelude::*;

verus! {

/// One call, by the thread that makes it where that matters.
pub enum Event {
    /// The thread with this identifier calls `wait`.
    Wait(nat),
    /// Some thread calls `notify_one`.
    Notify,
}

/// The handshake and the threads that it holds blocked.
pub struct Pool {
    /// The count and the owed notification.
    pub park: Park,
    /// The threads blocked inside `wait`, by identifier.
    pub asleep: Set<nat>,
}

impl Pool {
    /// The pool at construction.
    pub open spec fn initial() -> Pool {
        Pool { park: Park::initial(), asleep: Set::empty() }
    }

    /// The count is the number of blocked threads, and a notification is
    /// owed only while none is blocked.
    pub open spec fn sound(self) -> bool {
        &&& self.park.consistent()
        &&& self.asleep.finite()
        &&& self.asleep.len() == self.park.parked
    }

    /// `next` may follow `self` on `event`. A thread that is blocked makes
    /// no call. Which blocked thread a `notify_one` wakes is left open.
    pub open spec fn step(self, event: Event, next: Pool) -> bool {
        match event {
            Event::Wait(thread) => {
                &&& !self.asleep.contains(thread)
                &&& next.park == self.park.wait().0
                &&& next.asleep == match self.park.wait().1 {
                    WaitAction::Resume => self.asleep,
                    WaitAction::Park => self.asleep.insert(thread),
                }
            },
            Event::Notify => {
                &&& next.park == self.park.notify_one().0
                &&& match self.park.notify_one().1 {
                    NotifyAction::Wake => exists|thread: nat|
                        self.asleep.contains(thread) && next.asleep == self.asleep.remove(thread),
                    NotifyAction::Skip | NotifyAction::Credit => next.asleep == self.asleep,
                }
            },
        }
    }

    /// How many calls of `wait` a `notify_one` that leads from `self` to
    /// `next` serves: the threads that it wakes, and one more if it leaves a
    /// notification owed that was not owed before.
    pub open spec fn delivered(self, next: Pool) -> int {
        (self.asleep.len() - next.asleep.len()) + (next.park.owed() - self.park.owed())
    }
}

/// `states` is a run on `events`: it starts at construction, and each event
/// leads from one state to the next.
pub open spec fn is_run(states: Seq<Pool>, events: Seq<Event>) -> bool {
    &&& states.len() == events.len() + 1
    &&& states[0] == Pool::initial()
    &&& forall|i: int|
        0 <= i < events.len() ==> (#[trigger] states[i]).step(events[i], states[i + 1])
}

/// The calls of `wait` among the first `upto` events.
pub open spec fn waits_among(events: Seq<Event>, upto: int) -> int
    decreases upto,
{
    if upto <= 0 {
        0
    } else {
        waits_among(events, upto - 1) + match events[upto - 1] {
            Event::Wait(_) => 1int,
            Event::Notify => 0int,
        }
    }
}

/// The calls of `notify_one` among the first `upto` events that found no
/// notification owed, and so took effect.
pub open spec fn notifies_in_effect(states: Seq<Pool>, events: Seq<Event>, upto: int) -> int
    decreases upto,
{
    if upto <= 0 {
        0
    } else {
        notifies_in_effect(states, events, upto - 1) + match events[upto - 1] {
            Event::Wait(_) => 0int,
            Event::Notify => if states[upto - 1].park.pending {
                0int
            } else {
                1int
            },
        }
    }
}

/// A step from a sound pool leads to a sound pool.
pub proof fn step_keeps_sound(before: Pool, event: Event, after: Pool)
    requires
        before.sound(),
        before.step(event, after),
    ensures
        after.sound(),
{
}

/// In every run, at every moment, the count equals the number of blocked
/// threads (and so is never negative), and a notification is owed only
/// while no thread is blocked.
pub proof fn run_is_sound(states: Seq<Pool>, events: Seq<Event>, at: int)
    requires
        is_run(states, events),
        0 <= at < states.len(),
    ensures
        states[at].sound(),
        states[at].asleep.len() == states[at].park.parked,
    decreases at,
{
    if at > 0 {
        run_is_sound(states, events, at - 1);
        assert(states[at - 1].step(events[at - 1], states[at]));
        step_keeps_sound(states[at - 1], events[at - 1], states[at]);
    }
}

/// In every run, at every moment, the calls of `wait` that have returned
/// (those made, less the threads still blocked) are as many as the calls of
/// `notify_one` that took effect, less the one notification still owed.
pub proof fn returns_match_notifications(states: Seq<Pool>, events: Seq<Event>, at: int)
    requires
        is_run(states, events),
        0 <= at < states.len(),
    ensures
        waits_among(events, at) - states[at].asleep.len() == notifies_in_effect(states, events, at)
            - states[at].park.owed(),
    decreases at,
{
    if at > 0 {
        returns_match_notifications(states, events, at - 1);
        run_is_sound(states, events, at - 1);
        assert(states[at - 1].step(events[at - 1], states[at]));
    }
}

/// Where as many calls of `notify_one` took effect as there were calls of
/// `wait`, and no notification is owed at the end, no thread is left blocked.
pub proof fn all_waits_released(states: Seq<Pool>, events: Seq<Event>)
    requires
        is_run(states, events),
        waits_among(events, events.len() as int) == notifies_in_effect(
            states,
            events,
            events.len() as int,
        ),
        !states.last().park.pending,
    ensures
        states.last().asleep == Set::<nat>::empty(),
        states.last().park == Park::initial(),
{
    let end = events.len() as int;
    returns_match_notifications(states, events, end);
    run_is_sound(states, events, end);
    assert(states[end].asleep.len() == 0);
    assert(states[end].asleep =~= Set::<nat>::empty());
}

/// From a sound pool a `notify_one` can always take its step: where it is
/// to wake a thread, a blocked thread is there.
pub proof fn notify_can_step(before: Pool)
    requires
        before.sound(),
    ensures
        exists|after: Pool| before.step(Event::Notify, after),
{
    if before.park.notify_one().1 == NotifyAction::Wake {
        let thread = before.asleep.choose();
        let after = Pool { park: before.park.notify_one().0, asleep: before.asleep.remove(thread) };
        assert(before.step(Event::Notify, after));
    } else {
        let after = Pool { park: before.park.notify_one().0, asleep: before.asleep };
        assert(before.step(Event::Notify, after));
    }
}

/// One `notify_one` serves exactly one `wait`, never more: it wakes one
/// blocked thread, or, with none blocked, leaves one notification owed. Only
/// where a notification is owed already does it serve none and change nothing.
pub proof fn notify_delivers_one(before: Pool, after: Pool)
    requires
        before.sound(),
        before.step(Event::Notify, after),
    ensures
        !before.park.pending ==> before.delivered(after) == 1,
        before.park.pending ==> before.delivered(after) == 0 && after == before,
        after.asleep.subset_of(before.asleep),
        before.asleep.len() > 0 ==> before.asleep.len() - after.asleep.len() == 1
            && !after.park.pending,
{
}

/// No wakeup is lost: when `notify_one` is called while no thread is
/// blocked, the next call of `wait`, by whichever thread, returns without
/// blocking, and takes the notification with it.
pub proof fn no_lost_wakeup(before: Pool, notified: Pool, thread: nat, after: Pool)
    requires
        before.sound(),
        before.asleep == Set::<nat>::empty(),
        before.step(Event::Notify, notified),
        notified.step(Event::Wait(thread), after),
    ensures
        notified.park.pending,
        notified.park.wait().1 == WaitAction::Resume,
        !after.asleep.contains(thread),
        after == Pool::initial(),
{
}

/// What is owed stays owed until a `wait` takes it: after any number of
/// calls of `notify_one`, one at least, with no thread blocked, a `wait`
/// returns without blocking.
pub proof fn credit_persists(before: Park, calls: nat)
    requires
        before.parked == 0,
        calls >= 1,
    ensures
        before.notify_times(calls) == (Park { parked: 0, pending: true }),
        before.notify_times(calls).wait().1 == WaitAction::Resume,
    decreases calls,
{
    if calls > 1 {
        credit_persists(before.notify_one().0, (calls - 1) as nat);
    } else {
        assert(before.notify_one().0.notify_times(0) == before.notify_one().0);
    }
}

/// Notifications do not add up: after two or more calls of `notify_one` with
/// no thread blocked, one `wait` returns at once and takes what was owed, and
/// the `wait` after it blocks.
pub proof fn credit_does_not_accumulate(before: Park, calls: nat)
    requires
        before.parked == 0,
        calls >= 2,
    ensures
        before.notify_times(calls) == (Park { parked: 0, pending: true }),
        before.notify_times(calls).wait() == (Park { parked: 0, pending: false }, WaitAction::Resume),
        before.notify_times(calls).wait().0.wait() == (
            Park { parked: 1, pending: false },
            WaitAction::Park,
        ),
{
    credit_persists(before, calls);
}

/// One move of one thread, as finely as the lock and the flag let the
/// threads' moves fall between one another.
pub enum Move {
    /// The thread calls `wait`: all of it happens under the lock.
    Wait(nat),
    /// The thread, inside `notify_one`, reads the flag without the lock.
    /// Finding it set, the thread is done.
    Peek(nat),
    /// The thread, having read the flag as clear, goes on under the lock.
    Commit(nat),
}

/// A pool together with the threads that are inside `notify_one`, between
/// reading the flag as clear and taking the lock.
pub struct Floor {
    /// The handshake and the blocked threads.
    pub pool: Pool,
    /// The threads that have read the flag as clear and not yet gone on.
    pub committed: Set<nat>,
}

impl Floor {
    /// `next` may follow `self` on `mv`. Under the lock a committed thread
    /// goes by the flag as it read it, clear, whatever the flag is by then:
    /// it wakes a counted thread, or else sets the flag.
    pub open spec fn step(self, mv: Move, next: Floor) -> bool {
        match mv {
            Move::Wait(thread) => {
                &&& !self.committed.contains(thread)
                &&& self.pool.step(Event::Wait(thread), next.pool)
                &&& next.committed == self.committed
            },
            Move::Peek(thread) => {
                &&& !self.committed.contains(thread)
                &&& !self.pool.asleep.contains(thread)
                &&& next.pool == self.pool
                &&& next.committed == if self.pool.park.pending {
                    self.committed
                } else {
                    self.committed.insert(thread)
                }
            },
            Move::Commit(thread) => {
                let blind = (Park { parked: self.pool.park.parked, pending: false }).notify_one();
                &&& self.committed.contains(thread)
                &&& next.committed == self.committed.remove(thread)
                &&& next.pool.park.parked == blind.0.parked
                &&& next.pool.park.pending == (self.pool.park.pending || blind.0.pending)
                &&& match blind.1 {
                    NotifyAction::Wake => exists|woken: nat|
                        self.pool.asleep.contains(woken) && next.pool.asleep
                            == self.pool.asleep.remove(woken),
                    NotifyAction::Skip | NotifyAction::Credit => next.pool.asleep
                        == self.pool.asleep,
                }
            },
        }
    }
}

/// However the moves of the threads fall between one another, each call
/// takes effect as one event at one instant: a `wait` when it runs under
/// the lock; a `notify_one` when it reads the flag as set, or else when it
/// goes on under the lock, be the flag set by then or not. Reading the flag
/// as clear changes nothing. So reading the flag before taking the lock only
/// saves work, and what holds of every run holds of every interleaving.
pub proof fn move_is_one_event(before: Floor, mv: Move, after: Floor)
    requires
        before.pool.sound(),
        before.step(mv, after),
    ensures
        after.pool.sound(),
        match mv {
            Move::Wait(thread) => before.pool.step(Event::Wait(thread), after.pool),
            Move::Peek(_) => after.pool == before.pool && (before.pool.park.pending
                ==> before.pool.step(Event::Notify, after.pool)),
            Move::Commit(_) => before.pool.step(Event::Notify, after.pool),
        },
{
    match mv {
        Move::Wait(thread) => {
            step_keeps_sound(before.pool, Event::Wait(thread), after.pool);
        },
        Move::Peek(_) => {},
        Move::Commit(_) => {
            assert(before.pool.step(Event::Notify, after.pool));
            step_keeps_sound(before.pool, Event::Notify, after.pool);
        },
    }
}

} // verus!

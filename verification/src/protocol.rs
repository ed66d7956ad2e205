//! The park/wake handshake as a state machine on plain values.
//!
//! [`Park`] is the mathematical state: how many threads are counted as asleep
//! and whether one notification is owed to the next thread that calls `wait`.
//! [`ParkState`] is the same state in machine integers, with the two steps as
//! executable functions.

use vstd::prelude::*;

verus! {

/// What a thread that enters `wait` has to do.
#[derive(Clone, Copy, Debug, PartialEq, Eq, Structural)]
pub enum WaitAction {
    /// A notification was owed: it is taken, and the thread goes on at once.
    Resume,
    /// Nothing was owed: the thread has been counted and blocks.
    Park,
}

/// What a thread that enters `notify_one` has to do.
#[derive(Clone, Copy, Debug, PartialEq, Eq, Structural)]
pub enum NotifyAction {
    /// A notification is owed already: nothing changes.
    Skip,
    /// A counted thread leaves the count and is signalled.
    Wake,
    /// Nobody sleeps: the notification is kept for the next `wait`.
    Credit,
}

/// The handshake's state, unbounded.
pub struct Park {
    /// Threads counted as asleep.
    pub parked: nat,
    /// One notification came while nobody slept and has not been taken.
    pub pending: bool,
}

impl Park {
    /// The state at construction: nobody asleep, nothing owed.
    pub open spec fn initial() -> Park {
        Park { parked: 0, pending: false }
    }

    /// A notification is only ever owed while nobody is counted asleep.
    pub open spec fn consistent(self) -> bool {
        self.pending ==> self.parked == 0
    }

    /// The notifications owed: one or none.
    pub open spec fn owed(self) -> int {
        if self.pending {
            1
        } else {
            0
        }
    }

    /// The step of `wait`: take what is owed, or else join the count.
    pub open spec fn wait(self) -> (Park, WaitAction) {
        if self.pending {
            (Park { parked: self.parked, pending: false }, WaitAction::Resume)
        } else {
            (Park { parked: self.parked + 1, pending: false }, WaitAction::Park)
        }
    }

    /// The step of `notify_one`: nothing if a notification is owed already,
    /// else release one counted thread, else owe one notification.
    pub open spec fn notify_one(self) -> (Park, NotifyAction) {
        if self.pending {
            (self, NotifyAction::Skip)
        } else if self.parked > 0 {
            (Park { parked: (self.parked - 1) as nat, pending: false }, NotifyAction::Wake)
        } else {
            (Park { parked: 0, pending: true }, NotifyAction::Credit)
        }
    }

    /// The state after `n` calls of `notify_one` in a row.
    pub open spec fn notify_times(self, n: nat) -> Park
        decreases n,
    {
        if n == 0 {
            self
        } else {
            self.notify_one().0.notify_times((n - 1) as nat)
        }
    }
}

/// The handshake's state as the lock and the flag hold it.
#[derive(Clone, Copy, Debug, PartialEq, Eq, Structural)]
pub struct ParkState {
    /// Threads counted as asleep.
    pub parked: usize,
    /// One notification is owed to the next `wait`.
    pub pending: bool,
}

impl View for ParkState {
    type V = Park;

    open spec fn view(&self) -> Park {
        Park { parked: self.parked as nat, pending: self.pending }
    }
}

impl ParkState {
    /// The state at construction.
    pub fn new() -> (s: ParkState)
        ensures
            s@ == Park::initial(),
    {
        ParkState { parked: 0, pending: false }
    }

    /// The count after a `wait` still fits the machine's integer.
    pub open spec fn can_wait(self) -> bool {
        self@.wait().0.parked <= usize::MAX
    }

    /// Tells whether `wait` may be called on this state.
    pub fn has_room(&self) -> (b: bool)
        ensures
            b == self.can_wait(),
    {
        self.pending || self.parked < usize::MAX
    }

    /// One `wait`: the state that follows, and what the caller does.
    pub fn wait(self) -> (r: (ParkState, WaitAction))
        requires
            self.can_wait(),
        ensures
            r.0@ == self@.wait().0,
            r.1 == self@.wait().1,
    {
        if self.pending {
            (ParkState { parked: self.parked, pending: false }, WaitAction::Resume)
        } else {
            (ParkState { parked: self.parked + 1, pending: false }, WaitAction::Park)
        }
    }

    /// One `notify_one`: the state that follows, and what the caller does.
    pub fn notify_one(self) -> (r: (ParkState, NotifyAction))
        ensures
            r.0@ == self@.notify_one().0,
            r.1 == self@.notify_one().1,
    {
        if self.pending {
            (self, NotifyAction::Skip)
        } else if self.parked > 0 {
            (ParkState { parked: self.parked - 1, pending: false }, NotifyAction::Wake)
        } else {
            (ParkState { parked: 0, pending: true }, NotifyAction::Credit)
        }
    }
}

} // verus!

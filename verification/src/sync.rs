//! The standard library's lock and condition variable, as far as the sleepers
//! use them. Nothing here is proved: each contract states what the standard
//! library documents of the call.

use std::sync::atomic::AtomicBool;
use std::sync::Condvar;
use std::sync::Mutex;
use std::sync::MutexGuard;
use vstd::prelude::*;

verus! {

/// `std::sync::Mutex`, carried as an opaque value.
#[verifier::external_type_specification]
#[verifier::external_body]
#[verifier::reject_recursive_types(T)]
pub struct ExMutex<T: ?Sized>(Mutex<T>);

/// `std::sync::MutexGuard`, carried as an opaque value.
#[verifier::external_type_specification]
#[verifier::external_body]
#[verifier::reject_recursive_types(T)]
pub struct ExMutexGuard<'a, T: ?Sized + 'a>(MutexGuard<'a, T>);

/// `std::sync::Condvar`, carried as an opaque value.
#[verifier::external_type_specification]
#[verifier::external_body]
pub struct ExCondvar(Condvar);

/// The count that a held guard gives access to. While the guard is held no
/// other thread reads or writes the count, so it is a function of the guard,
/// and changes only through a mutable reference to the guard.
pub uninterp spec fn held(guard: MutexGuard<usize>) -> usize;

/// The count that a lock was made with. It says what the lock held when it
/// was made, and nothing of what it holds at any time after that.
pub uninterp spec fn lock_made_with(lock: Mutex<usize>) -> usize;

/// The value that a flag was made with. It says what the flag was when it
/// was made, and nothing of what it is at any time after that.
pub uninterp spec fn flag_made_with(flag: AtomicBool) -> bool;

/// `Mutex::new`: a lock, not taken, around the given count. Of what the lock
/// holds later nothing is stated: any thread that shares it may change that.
#[verifier::external_body]
pub(crate) fn new_lock(count: usize) -> (lock: Mutex<usize>)
    ensures
        lock_made_with(lock) == count,
{
    Mutex::new(count)
}

/// `AtomicBool::new`: a flag that starts at the given value. Of what the
/// flag is later nothing is stated: any thread that shares it may change that.
#[verifier::external_body]
pub(crate) fn new_flag(value: bool) -> (flag: AtomicBool)
    ensures
        flag_made_with(flag) == value,
{
    AtomicBool::new(value)
}

/// `Condvar::new`: a condition variable with no thread waiting on it.
#[verifier::external_body]
pub(crate) fn new_condvar() -> (wake: Condvar) {
    Condvar::new()
}

/// `Mutex::lock`: blocks until the lock is free and returns its guard. A
/// poisoned lock hands its guard over all the same. Nothing is stated of the
/// count found: other threads decide it. The standard library leaves open
/// what happens to a thread that takes a lock it holds already; the sleepers
/// take theirs once per call and let go of it before they return.
#[verifier::external_body]
pub(crate) fn acquire<'a>(lock: &'a Mutex<usize>) -> (guard: MutexGuard<'a, usize>) {
    match lock.lock() {
        Ok(guard) => guard,
        Err(poisoned) => poisoned.into_inner(),
    }
}

/// The guard's `Deref`: reads the count under the lock.
#[verifier::external_body]
pub(crate) fn count_of(guard: &MutexGuard<usize>) -> (count: usize)
    ensures
        count == held(*guard),
{
    **guard
}

/// The guard's `DerefMut`: writes the count under the lock.
#[verifier::external_body]
pub(crate) fn set_count(guard: &mut MutexGuard<usize>, count: usize)
    ensures
        held(*final(guard)) == count,
{
    **guard = count;
}

/// `Condvar::wait`: releases the lock, blocks the calling thread until the
/// condition variable wakes it, and takes the lock again. Nothing is stated
/// of the count found afterwards: other threads held the lock meanwhile. Nor
/// is it stated that a `signal` came before the return. The standard library
/// asks that a condition variable be used with one lock only; the sleepers
/// keep the two side by side and never pair them otherwise.
#[verifier::external_body]
pub(crate) fn block<'a>(wake: &Condvar, guard: MutexGuard<'a, usize>) -> (back: MutexGuard<'a, usize>) {
    match wake.wait(guard) {
        Ok(back) => back,
        Err(poisoned) => poisoned.into_inner(),
    }
}

/// `Condvar::notify_one`: wakes one thread blocked on the condition variable,
/// if there is one. It returns nothing and changes no value that is held here.
#[verifier::external_body]
pub(crate) fn signal(wake: &Condvar) {
    wake.notify_one();
}

} // verus!

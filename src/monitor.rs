//! The lock and the condition variable of std that a wait group is built on,
//! made known to the verifier. The count under the lock changes as other
//! threads take it, so the wrappers speak of it only through a held guard;
//! the logic that decides what to do with it lives in `counter`.
use vstd::prelude::*;

use crate::counter::{blocks, must_block};

verus! {

#[verifier::external_type_specification]
#[verifier::external_body]
#[verifier::reject_recursive_types(T)]
pub struct ExMutex<T: ?Sized>(std::sync::Mutex<T>);

#[verifier::external_type_specification]
#[verifier::external_body]
#[verifier::reject_recursive_types(T)]
pub struct ExMutexGuard<'a, T: ?Sized + 'a>(std::sync::MutexGuard<'a, T>);

#[verifier::external_type_specification]
#[verifier::external_body]
pub struct ExCondvar(std::sync::Condvar);

/// The value a lock was created with.
pub uninterp spec fn created_with(m: std::sync::Mutex<usize>) -> usize;

/// The value under the lock that `g` holds, as the holder sees it.
pub uninterp spec fn held_count(g: std::sync::MutexGuard<'_, usize>) -> usize;

/// Relies on std::sync::Mutex::new: an unlocked lock around `value`.
#[verifier::external_body]
pub(crate) fn new_count_lock(value: usize) -> (r: std::sync::Mutex<usize>)
    ensures
        created_with(r) == value,
{
    std::sync::Mutex::new(value)
}

/// Relies on std::sync::Condvar::new: a condition variable with no waiters.
#[verifier::external_body]
pub(crate) fn new_condvar() -> std::sync::Condvar {
    std::sync::Condvar::new()
}

/// Relies on std::sync::Mutex::lock: blocks until the calling thread holds the
/// lock. A poisoned lock is taken all the same: poisoning only records that a
/// holder panicked, and the count is written only by verified code that does
/// not panic, so the value under the lock is always a finished update.
#[verifier::external_body]
pub(crate) fn lock_count<'a>(m: &'a std::sync::Mutex<usize>) -> std::sync::MutexGuard<'a, usize> {
    match m.lock() {
        Ok(g) => g,
        Err(e) => e.into_inner(),
    }
}

/// Relies on MutexGuard's Deref: the value under the held lock.
#[verifier::external_body]
pub(crate) fn read_count(g: &std::sync::MutexGuard<usize>) -> (r: usize)
    ensures
        r == held_count(*g),
{
    **g
}

/// Relies on MutexGuard's DerefMut: stores `value` under the held lock.
#[verifier::external_body]
pub(crate) fn write_count(g: &mut std::sync::MutexGuard<usize>, value: usize)
    ensures
        held_count(*final(g)) == value,
{
    **g = value;
}

/// Relies on std::sync::Condvar::wait_while: releases the lock while blocked,
/// and each time the thread wakes, takes the lock again and re-checks
/// `must_block` on the count; hands the guard back once the check is false.
/// It hands a guard back early only on a poisoned lock, which needs a holder
/// that panicked: the holders of this lock are the verified functions of this
/// crate, which do not panic, and guards never leave the crate.
#[verifier::external_body]
pub(crate) fn wait_while_busy<'a>(
    cv: &std::sync::Condvar,
    g: std::sync::MutexGuard<'a, usize>,
) -> (r: std::sync::MutexGuard<'a, usize>)
    ensures
        !blocks(held_count(r) as nat),
{
    match cv.wait_while(g, |c| must_block(*c)) {
        Ok(g) => g,
        Err(e) => e.into_inner(),
    }
}

/// Relies on std::sync::Condvar::notify_all: wakes every thread blocked on `cv`.
#[verifier::external_body]
pub(crate) fn notify_all(cv: &std::sync::Condvar) {
    cv.notify_all()
}

} // verus!

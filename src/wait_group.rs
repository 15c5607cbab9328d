//! The shared handle: a lock around the count and a condition variable that
//! is broadcast whenever the count comes back to zero.
use vstd::prelude::*;

use crate::counter::{
    add_to_count, blocks, count_after_add, count_after_done, done_on_count, fresh_count,
    should_wake, CounterOverflow, CounterUnderflow,
};
use crate::monitor::{
    created_with, held_count, lock_count, new_condvar, new_count_lock, notify_all, read_count,
    wait_while_busy, write_count,
};

verus! {

struct Shared {
    cond: std::sync::Condvar,
    count: std::sync::Mutex<usize>,
}

/// Waits for a collection of threads to finish. Each unit of work is
/// registered with `add` and marked finished with `done`; `wait` blocks until
/// every registered unit has finished. Clones share one counter.
#[derive(Clone)]
pub struct WaitGroup(std::sync::Arc<Shared>);

/// Registers `delta` more units of work under the held lock `g`. On success
/// the lock holds the new count, which is also returned; on failure the count
/// is left as it was.
fn add_held(g: &mut std::sync::MutexGuard<usize>, delta: usize) -> (r: Result<
    usize,
    CounterOverflow,
>)
    ensures
        r is Ok <==> held_count(*old(g)) + delta <= usize::MAX,
        r matches Ok(n) ==> n == held_count(*final(g)) && n as nat == count_after_add(
            held_count(*old(g)) as nat,
            delta as nat,
        ),
        r is Err ==> *final(g) == *old(g),
{
    match add_to_count(read_count(g), delta) {
        Ok(n) => {
            write_count(g, n);
            Ok(n)
        },
        Err(e) => Err(e),
    }
}

/// Completes one unit of work under the held lock `g`. On success the lock
/// holds the new count, which is also returned; where no work was outstanding
/// the count is left at zero.
fn done_held(g: &mut std::sync::MutexGuard<usize>) -> (r: Result<usize, CounterUnderflow>)
    ensures
        r is Err <==> held_count(*old(g)) == 0,
        r matches Ok(n) ==> n == held_count(*final(g)) && count_after_done(
            held_count(*old(g)) as nat,
        ) == Some(n as nat),
        r is Err ==> *final(g) == *old(g),
{
    match done_on_count(read_count(g)) {
        Ok(n) => {
            write_count(g, n);
            Ok(n)
        },
        Err(e) => Err(e),
    }
}

impl WaitGroup {
    /// The count that this group's lock was created with.
    pub closed spec fn created_count(self) -> nat {
        created_with(self.0.count) as nat
    }

    /// A wait group with no outstanding work.
    pub fn new() -> (wg: WaitGroup)
        ensures
            wg.created_count() == fresh_count(),
    {
        WaitGroup(std::sync::Arc::new(Shared { cond: new_condvar(), count: new_count_lock(0) }))
    }

    /// Registers `delta` more units of work, and wakes all waiters if the
    /// count is then zero. Fails, leaving the count as it was, only where the
    /// new count would not fit in a `usize`, which takes a positive `delta`.
    pub fn add(&self, delta: usize) -> (r: Result<(), CounterOverflow>)
        ensures
            r is Err ==> delta > 0,
    {
        let mut guard = lock_count(&self.0.count);
        match add_held(&mut guard, delta) {
            Ok(n) => {
                self.notify_if_empty(n);
                Ok(())
            },
            Err(e) => Err(e),
        }
    }

    /// Marks one unit of work finished, and wakes all waiters if none is left.
    /// Fails with `CounterUnderflow`, leaving the count at zero, where no work
    /// was outstanding.
    pub fn done(&self) -> (r: Result<(), CounterUnderflow>) {
        let mut guard = lock_count(&self.0.count);
        match done_held(&mut guard) {
            Ok(n) => {
                self.notify_if_empty(n);
                Ok(())
            },
            Err(e) => Err(e),
        }
    }

    /// Blocks until the count is zero, as observed under the lock.
    pub fn wait(&self) {
        let guard = lock_count(&self.0.count);
        let idle = wait_while_busy(&self.0.cond, guard);
        // A waiter leaves only having seen the count at zero under the lock.
        assert(!blocks(held_count(idle) as nat));
    }

    /// The current count, read under the lock, for diagnostics.
    pub fn snapshot(&self) -> usize {
        let guard = lock_count(&self.0.count);
        read_count(&guard)
    }

    fn notify_if_empty(&self, count: usize) {
        if should_wake(count) {
            notify_all(&self.0.cond);
        }
    }
}

} // verus!

//! The counter behind a wait group, as plain values: how `add` and `done`
//! change it, when waiters are woken, and when a waiter may return.
use vstd::prelude::*;

verus! {

/// `done` was called while no work was outstanding.
#[derive(Debug, Clone, Copy, PartialEq, Eq)]
pub struct CounterUnderflow;

/// `add` would take the count past the largest value it can hold.
#[derive(Debug, Clone, Copy, PartialEq, Eq)]
pub struct CounterOverflow;

/// The count of a fresh wait group.
pub open spec fn fresh_count() -> nat {
    0
}

/// The count after registering `delta` more units of work.
pub open spec fn count_after_add(count: nat, delta: nat) -> nat {
    count + delta
}

/// The count after one unit of work completes; `None` when none was outstanding.
pub open spec fn count_after_done(count: nat) -> Option<nat> {
    if count > 0 {
        Some((count - 1) as nat)
    } else {
        None
    }
}

/// Whether a change that leaves the counter at `count` wakes every blocked waiter.
pub open spec fn wakes_waiters(count: nat) -> bool {
    count == 0
}

/// Whether a waiter that observes `count` under the lock keeps blocking.
pub open spec fn blocks(count: nat) -> bool {
    count > 0
}

/// The total of all deltas in `ds`.
pub open spec fn total(ds: Seq<nat>) -> nat
    decreases ds.len(),
{
    if ds.len() == 0 {
        0
    } else {
        total(ds.drop_last()) + ds.last()
    }
}

/// The count after `add(ds[0])`, `add(ds[1])`, ... in order, starting from `count`.
pub open spec fn count_after_adds(count: nat, ds: Seq<nat>) -> nat
    decreases ds.len(),
{
    if ds.len() == 0 {
        count
    } else {
        count_after_add(count_after_adds(count, ds.drop_last()), ds.last())
    }
}

/// The count after `n` calls of `done`, starting from `count`; `None` when one
/// of them finds no work outstanding.
pub open spec fn count_after_dones(count: nat, n: nat) -> Option<nat>
    decreases n,
{
    if n == 0 {
        Some(count)
    } else {
        match count_after_dones(count, (n - 1) as nat) {
            Some(c) => count_after_done(c),
            None => None,
        }
    }
}

/// Registers `delta` more units of work on a counter that stands at `count`.
/// Fails only where the new count would not fit in a `usize`.
pub fn add_to_count(count: usize, delta: usize) -> (r: Result<usize, CounterOverflow>)
    ensures
        r is Ok <==> count + delta <= usize::MAX,
        r matches Ok(n) ==> n == count_after_add(count as nat, delta as nat),
{
    match count.checked_add(delta) {
        Some(n) => Ok(n),
        None => Err(CounterOverflow),
    }
}

/// Completes one unit of work on a counter that stands at `count`.
/// Fails exactly when no work is outstanding; the count never goes below zero.
pub fn done_on_count(count: usize) -> (r: Result<usize, CounterUnderflow>)
    ensures
        r is Err <==> count_after_done(count as nat) is None,
        r matches Ok(n) ==> count_after_done(count as nat) == Some(n as nat),
{
    if count > 0 {
        Ok(count - 1)
    } else {
        Err(CounterUnderflow)
    }
}

/// Whether a change that leaves the counter at `count` must wake all waiters.
pub fn should_wake(count: usize) -> (r: bool)
    ensures
        r == wakes_waiters(count as nat),
{
    count == 0
}

/// Whether a waiter that observes `count` must keep blocking.
pub fn must_block(count: usize) -> (r: bool)
    ensures
        r == blocks(count as nat),
{
    count > 0
}

proof fn lemma_adds_total(count: nat, ds: Seq<nat>)
    ensures
        count_after_adds(count, ds) == count + total(ds),
    decreases ds.len(),
{
    if ds.len() > 0 {
        lemma_adds_total(count, ds.drop_last());
    }
}

proof fn lemma_dones_take_back(count: nat, n: nat)
    ensures
        count_after_dones(count + n, n) == Some(count),
    decreases n,
{
    if n > 0 {
        lemma_dones_take_back(count + 1, (n - 1) as nat);
        assert(count + 1 + (n - 1) == count + n);
    }
}

/// A fresh counter lets a waiter return at once.
pub proof fn lemma_fresh_does_not_block()
    ensures
        !blocks(fresh_count()),
{
}

/// Any run of `add` calls followed by as many `done` calls as the deltas add
/// up to succeeds at every `done`, and leaves the counter at zero, where a
/// waiter returns.
pub proof fn lemma_balanced_round_releases(ds: Seq<nat>)
    ensures
        count_after_dones(count_after_adds(fresh_count(), ds), total(ds)) == Some(fresh_count()),
        !blocks(fresh_count()),
{
    lemma_adds_total(fresh_count(), ds);
    lemma_dones_take_back(fresh_count(), total(ds));
}

/// After a full round that returns the counter to zero, a second round of
/// `add` and `done` calls goes exactly as it would on a fresh counter.
pub proof fn lemma_round_after_round(first: Seq<nat>, second: Seq<nat>, n: nat)
    ensures
        count_after_dones(count_after_adds(fresh_count(), first), total(first)) matches Some(c)
            && count_after_dones(count_after_adds(c, second), n) == count_after_dones(
            count_after_adds(fresh_count(), second),
            n,
        ),
{
    lemma_balanced_round_releases(first);
}

} // verus!

//! An unsigned 64-bit integer cell with atomic semantics.
use vstd::prelude::*;
use std::sync::atomic::Ordering;
use crossbeam_utils::sync::{ShardedLock, ShardedLockWriteGuard};
use crate::arith::wrap_u64;
use crate::lock::{
    guard_get_u64, guard_set_u64, guarded_u64, lock_get_mut, lock_into_inner, new_lock, read_lock,
    write_lock,
};

verus! {

/// What `compare_exchange` reports when the cell held `prev`.
pub open spec fn exchange_outcome_u64(prev: u64, current: u64) -> Result<u64, u64> {
    if prev == current {
        Ok(current)
    } else {
        Err(prev)
    }
}

/// Critical section of `store`, run on a held write guard.
pub fn store_locked(g: &mut ShardedLockWriteGuard<'_, u64>, value: u64)
    ensures
        guarded_u64(*final(g)) == value,
{
    guard_set_u64(g, value);
}

/// Critical section of `swap`, run on a held write guard: the previous value is returned.
pub fn swap_locked(g: &mut ShardedLockWriteGuard<'_, u64>, value: u64) -> (prev: u64)
    ensures
        prev == guarded_u64(*old(g)),
        guarded_u64(*final(g)) == value,
{
    let prev = guard_get_u64(g);
    guard_set_u64(g, value);
    prev
}

/// Critical section of `compare_and_swap`, run on a held write guard.
pub fn compare_and_swap_locked(g: &mut ShardedLockWriteGuard<'_, u64>, current: u64, new: u64) -> (prev: u64)
    ensures
        prev == guarded_u64(*old(g)),
        guarded_u64(*final(g)) == (if prev == current { new } else { prev }),
{
    let prev = guard_get_u64(g);
    if prev == current {
        guard_set_u64(g, new);
    }
    prev
}

/// Critical section of `compare_exchange`, run on a held write guard.
pub fn compare_exchange_locked(
    g: &mut ShardedLockWriteGuard<'_, u64>,
    current: u64,
    new: u64,
) -> (r: Result<u64, u64>)
    ensures
        r == exchange_outcome_u64(guarded_u64(*old(g)), current),
        guarded_u64(*final(g)) == (if guarded_u64(*old(g)) == current { new } else { guarded_u64(*old(g)) }),
{
    let prev = guard_get_u64(g);
    if prev == current {
        guard_set_u64(g, new);
        Ok(current)
    } else {
        Err(prev)
    }
}

/// Critical section of `fetch_add`, run on a held write guard: adds modulo 2^64.
pub fn fetch_add_locked(g: &mut ShardedLockWriteGuard<'_, u64>, val: u64) -> (prev: u64)
    ensures
        prev == guarded_u64(*old(g)),
        guarded_u64(*final(g)) == wrap_u64(prev + val),
{
    let prev = guard_get_u64(g);
    guard_set_u64(g, prev.wrapping_add(val));
    prev
}

/// Critical section of `fetch_sub`, run on a held write guard: subtracts modulo 2^64.
pub fn fetch_sub_locked(g: &mut ShardedLockWriteGuard<'_, u64>, val: u64) -> (prev: u64)
    ensures
        prev == guarded_u64(*old(g)),
        guarded_u64(*final(g)) == wrap_u64(prev - val),
{
    let prev = guard_get_u64(g);
    guard_set_u64(g, prev.wrapping_sub(val));
    prev
}

/// Critical section of `fetch_and`, run on a held write guard.
pub fn fetch_and_locked(g: &mut ShardedLockWriteGuard<'_, u64>, val: u64) -> (prev: u64)
    ensures
        prev == guarded_u64(*old(g)),
        guarded_u64(*final(g)) == prev & val,
{
    let prev = guard_get_u64(g);
    guard_set_u64(g, prev & val);
    prev
}

/// Critical section of `fetch_nand`, run on a held write guard.
pub fn fetch_nand_locked(g: &mut ShardedLockWriteGuard<'_, u64>, val: u64) -> (prev: u64)
    ensures
        prev == guarded_u64(*old(g)),
        guarded_u64(*final(g)) == !(prev & val),
{
    let prev = guard_get_u64(g);
    guard_set_u64(g, !(prev & val));
    prev
}

/// Critical section of `fetch_or`, run on a held write guard.
pub fn fetch_or_locked(g: &mut ShardedLockWriteGuard<'_, u64>, val: u64) -> (prev: u64)
    ensures
        prev == guarded_u64(*old(g)),
        guarded_u64(*final(g)) == prev | val,
{
    let prev = guard_get_u64(g);
    guard_set_u64(g, prev | val);
    prev
}

/// Critical section of `fetch_xor`, run on a held write guard.
pub fn fetch_xor_locked(g: &mut ShardedLockWriteGuard<'_, u64>, val: u64) -> (prev: u64)
    ensures
        prev == guarded_u64(*old(g)),
        guarded_u64(*final(g)) == prev ^ val,
{
    let prev = guard_get_u64(g);
    guard_set_u64(g, prev ^ val);
    prev
}

/// An unsigned 64-bit integer that can be read and modified through shared
/// references, with the operation set of `std::sync::atomic::AtomicU64`.
///
/// The value sits behind a sharded reader-writer lock. `load` takes the shared
/// lock; every other operation runs as one critical section under the
/// exclusive lock, so all modifications are totally ordered. Because other
/// holders may modify the cell between any two calls, the contracts of the
/// shared-reference methods state only what holds whatever was stored; the
/// exact effect of each critical section is stated on its `*_locked` function.
#[derive(Debug)]
pub struct AtomicU64 {
    value: ShardedLock<u64>,
}

impl AtomicU64 {
    /// A new cell holding `v`.
    pub fn new(v: u64) -> Self {
        AtomicU64 { value: new_lock(v) }
    }

    /// The value itself, borrowed through exclusive ownership of the cell.
    pub fn get_mut(&mut self) -> &mut u64 {
        lock_get_mut(&mut self.value)
    }

    /// Consumes the cell and returns its value.
    pub fn into_inner(self) -> u64 {
        lock_into_inner(self.value)
    }

    /// The current value. The ordering is accepted for compatibility only.
    pub fn load(&self, _order: Ordering) -> u64 {
        read_lock(&self.value)
    }

    /// Overwrites the value. The ordering is accepted for compatibility only.
    pub fn store(&self, value: u64, _order: Ordering) {
        let mut g = write_lock(&self.value);
        store_locked(&mut g, value);
    }

    /// Replaces the value and returns the one it replaced.
    pub fn swap(&self, value: u64, _order: Ordering) -> u64 {
        let mut g = write_lock(&self.value);
        swap_locked(&mut g, value)
    }

    /// Stores `new` if the value equals `current`; returns the previous value
    /// either way, so the exchange happened exactly when it equals `current`.
    pub fn compare_and_swap(&self, current: u64, new: u64, _order: Ordering) -> u64 {
        let mut g = write_lock(&self.value);
        compare_and_swap_locked(&mut g, current, new)
    }

    /// Stores `new` if the value equals `current`. Returns `Ok(current)` when
    /// it did, and `Err` with the value found when it did not.
    pub fn compare_exchange(
        &self,
        current: u64,
        new: u64,
        _success: Ordering,
        _failure: Ordering,
    ) -> (r: Result<u64, u64>)
        ensures
            r matches Ok(v) ==> v == current,
            r matches Err(v) ==> v != current,
    {
        let mut g = write_lock(&self.value);
        compare_exchange_locked(&mut g, current, new)
    }

    /// Same as `compare_exchange`: the lock leaves no room for spurious
    /// failure, so the weak form never fails when the value matches.
    pub fn compare_exchange_weak(
        &self,
        current: u64,
        new: u64,
        success: Ordering,
        failure: Ordering,
    ) -> (r: Result<u64, u64>)
        ensures
            r matches Ok(v) ==> v == current,
            r matches Err(v) ==> v != current,
    {
        self.compare_exchange(current, new, success, failure)
    }

    /// Adds `val` modulo 2^64 and returns the previous value.
    pub fn fetch_add(&self, val: u64, _order: Ordering) -> u64 {
        let mut g = write_lock(&self.value);
        fetch_add_locked(&mut g, val)
    }

    /// Subtracts `val` modulo 2^64 and returns the previous value.
    pub fn fetch_sub(&self, val: u64, _order: Ordering) -> u64 {
        let mut g = write_lock(&self.value);
        fetch_sub_locked(&mut g, val)
    }

    /// Bitwise AND with `val`; returns the previous value.
    pub fn fetch_and(&self, val: u64, _order: Ordering) -> u64 {
        let mut g = write_lock(&self.value);
        fetch_and_locked(&mut g, val)
    }

    /// Bitwise NAND with `val`; returns the previous value.
    pub fn fetch_nand(&self, val: u64, _order: Ordering) -> u64 {
        let mut g = write_lock(&self.value);
        fetch_nand_locked(&mut g, val)
    }

    /// Bitwise OR with `val`; returns the previous value.
    pub fn fetch_or(&self, val: u64, _order: Ordering) -> u64 {
        let mut g = write_lock(&self.value);
        fetch_or_locked(&mut g, val)
    }

    /// Bitwise XOR with `val`; returns the previous value.
    pub fn fetch_xor(&self, val: u64, _order: Ordering) -> u64 {
        let mut g = write_lock(&self.value);
        fetch_xor_locked(&mut g, val)
    }
}

impl Default for AtomicU64 {
    /// A cell holding zero.
    fn default() -> Self {
        AtomicU64::new(0)
    }
}

impl From<u64> for AtomicU64 {
    fn from(value: u64) -> Self {
        AtomicU64::new(value)
    }
}

/// A lock's contents have no spec-level value, so conversion promises
/// nothing beyond what `new` does.
impl vstd::std_specs::convert::FromSpecImpl<u64> for AtomicU64 {
    open spec fn obeys_from_spec() -> bool {
        false
    }

    open spec fn from_spec(v: u64) -> Self {
        arbitrary()
    }
}

} // verus!

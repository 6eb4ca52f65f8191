//! A signed 64-bit integer cell with atomic semantics.
use vstd::prelude::*;
use std::sync::atomic::Ordering;
use crossbeam_utils::sync::{ShardedLock, ShardedLockWriteGuard};
use crate::arith::wrap_i64;
use crate::lock::{
    guard_get_i64, guard_set_i64, guarded_i64, lock_get_mut, lock_into_inner, new_lock, read_lock,
    write_lock,
};

verus! {

/// What `compare_exchange` reports when the cell held `prev`.
pub open spec fn exchange_outcome_i64(prev: i64, current: i64) -> Result<i64, i64> {
    if prev == current {
        Ok(current)
    } else {
        Err(prev)
    }
}

/// Critical section of `store`, run on a held write guard.
pub fn store_locked(g: &mut ShardedLockWriteGuard<'_, i64>, value: i64)
    ensures
        guarded_i64(*final(g)) == value,
{
    guard_set_i64(g, value);
}

/// Critical section of `swap`, run on a held write guard: the previous value is returned.
pub fn swap_locked(g: &mut ShardedLockWriteGuard<'_, i64>, value: i64) -> (prev: i64)
    ensures
        prev == guarded_i64(*old(g)),
        guarded_i64(*final(g)) == value,
{
    let prev = guard_get_i64(g);
    guard_set_i64(g, value);
    prev
}

/// Critical section of `compare_and_swap`, run on a held write guard.
pub fn compare_and_swap_locked(g: &mut ShardedLockWriteGuard<'_, i64>, current: i64, new: i64) -> (prev: i64)
    ensures
        prev == guarded_i64(*old(g)),
        guarded_i64(*final(g)) == (if prev == current { new } else { prev }),
{
    let prev = guard_get_i64(g);
    if prev == current {
        guard_set_i64(g, new);
    }
    prev
}

/// Critical section of `compare_exchange`, run on a held write guard.
pub fn compare_exchange_locked(
    g: &mut ShardedLockWriteGuard<'_, i64>,
    current: i64,
    new: i64,
) -> (r: Result<i64, i64>)
    ensures
        r == exchange_outcome_i64(guarded_i64(*old(g)), current),
        guarded_i64(*final(g)) == (if guarded_i64(*old(g)) == current { new } else { guarded_i64(*old(g)) }),
{
    let prev = guard_get_i64(g);
    if prev == current {
        guard_set_i64(g, new);
        Ok(current)
    } else {
        Err(prev)
    }
}

/// Critical section of `fetch_add`, run on a held write guard: adds modulo 2^64, in two's complement.
pub fn fetch_add_locked(g: &mut ShardedLockWriteGuard<'_, i64>, val: i64) -> (prev: i64)
    ensures
        prev == guarded_i64(*old(g)),
        guarded_i64(*final(g)) == wrap_i64(prev + val),
{
    let prev = guard_get_i64(g);
    guard_set_i64(g, prev.wrapping_add(val));
    prev
}

/// Critical section of `fetch_sub`, run on a held write guard: subtracts modulo 2^64, in two's complement.
pub fn fetch_sub_locked(g: &mut ShardedLockWriteGuard<'_, i64>, val: i64) -> (prev: i64)
    ensures
        prev == guarded_i64(*old(g)),
        guarded_i64(*final(g)) == wrap_i64(prev - val),
{
    let prev = guard_get_i64(g);
    guard_set_i64(g, prev.wrapping_sub(val));
    prev
}

/// Critical section of `fetch_and`, run on a held write guard.
pub fn fetch_and_locked(g: &mut ShardedLockWriteGuard<'_, i64>, val: i64) -> (prev: i64)
    ensures
        prev == guarded_i64(*old(g)),
        guarded_i64(*final(g)) == prev & val,
{
    let prev = guard_get_i64(g);
    guard_set_i64(g, prev & val);
    prev
}

/// Critical section of `fetch_nand`, run on a held write guard.
pub fn fetch_nand_locked(g: &mut ShardedLockWriteGuard<'_, i64>, val: i64) -> (prev: i64)
    ensures
        prev == guarded_i64(*old(g)),
        guarded_i64(*final(g)) == !(prev & val),
{
    let prev = guard_get_i64(g);
    guard_set_i64(g, !(prev & val));
    prev
}

/// Critical section of `fetch_or`, run on a held write guard.
pub fn fetch_or_locked(g: &mut ShardedLockWriteGuard<'_, i64>, val: i64) -> (prev: i64)
    ensures
        prev == guarded_i64(*old(g)),
        guarded_i64(*final(g)) == prev | val,
{
    let prev = guard_get_i64(g);
    guard_set_i64(g, prev | val);
    prev
}

/// Critical section of `fetch_xor`, run on a held write guard.
pub fn fetch_xor_locked(g: &mut ShardedLockWriteGuard<'_, i64>, val: i64) -> (prev: i64)
    ensures
        prev == guarded_i64(*old(g)),
        guarded_i64(*final(g)) == prev ^ val,
{
    let prev = guard_get_i64(g);
    guard_set_i64(g, prev ^ val);
    prev
}

/// A signed 64-bit integer that can be read and modified through shared
/// references, with the operation set of `std::sync::atomic::AtomicI64`.
///
/// The value sits behind a sharded reader-writer lock. `load` takes the shared
/// lock; every other operation runs as one critical section under the
/// exclusive lock, so all modifications are totally ordered. Because other
/// holders may modify the cell between any two calls, the contracts of the
/// shared-reference methods state only what holds whatever was stored; the
/// exact effect of each critical section is stated on its `*_locked` function.
#[derive(Debug)]
pub struct AtomicI64 {
    value: ShardedLock<i64>,
}

impl AtomicI64 {
    /// A new cell holding `v`.
    pub fn new(v: i64) -> Self {
        AtomicI64 { value: new_lock(v) }
    }

    /// The value itself, borrowed through exclusive ownership of the cell.
    pub fn get_mut(&mut self) -> &mut i64 {
        lock_get_mut(&mut self.value)
    }

    /// Consumes the cell and returns its value.
    pub fn into_inner(self) -> i64 {
        lock_into_inner(self.value)
    }

    /// The current value. The ordering is accepted for compatibility only.
    pub fn load(&self, _order: Ordering) -> i64 {
        read_lock(&self.value)
    }

    /// Overwrites the value. The ordering is accepted for compatibility only.
    pub fn store(&self, value: i64, _order: Ordering) {
        let mut g = write_lock(&self.value);
        store_locked(&mut g, value);
    }

    /// Replaces the value and returns the one it replaced.
    pub fn swap(&self, value: i64, _order: Ordering) -> i64 {
        let mut g = write_lock(&self.value);
        swap_locked(&mut g, value)
    }

    /// Stores `new` if the value equals `current`; returns the previous value
    /// either way, so the exchange happened exactly when it equals `current`.
    pub fn compare_and_swap(&self, current: i64, new: i64, _order: Ordering) -> i64 {
        let mut g = write_lock(&self.value);
        compare_and_swap_locked(&mut g, current, new)
    }

    /// Stores `new` if the value equals `current`. Returns `Ok(current)` when
    /// it did, and `Err` with the value found when it did not.
    pub fn compare_exchange(
        &self,
        current: i64,
        new: i64,
        _success: Ordering,
        _failure: Ordering,
    ) -> (r: Result<i64, i64>)
        ensures
            r matches Ok(v) ==> v == current,
            r matches Err(v) ==> v != current,
    {
        let mut g = write_lock(&self.value);
        compare_exchange_locked(&mut g, current, new)
    }

    /// Same as `compare_exchange`: the lock leaves no room for spurious
    /// failure, so the weak form never fails when the value matches.
    pub fn compare_exchange_weak(
        &self,
        current: i64,
        new: i64,
        success: Ordering,
        failure: Ordering,
    ) -> (r: Result<i64, i64>)
        ensures
            r matches Ok(v) ==> v == current,
            r matches Err(v) ==> v != current,
    {
        self.compare_exchange(current, new, success, failure)
    }

    /// Adds `val` with two's-complement wrap-around and returns the previous value.
    pub fn fetch_add(&self, val: i64, _order: Ordering) -> i64 {
        let mut g = write_lock(&self.value);
        fetch_add_locked(&mut g, val)
    }

    /// Subtracts `val` with two's-complement wrap-around and returns the previous value.
    pub fn fetch_sub(&self, val: i64, _order: Ordering) -> i64 {
        let mut g = write_lock(&self.value);
        fetch_sub_locked(&mut g, val)
    }

    /// Bitwise AND with `val`; returns the previous value.
    pub fn fetch_and(&self, val: i64, _order: Ordering) -> i64 {
        let mut g = write_lock(&self.value);
        fetch_and_locked(&mut g, val)
    }

    /// Bitwise NAND with `val`; returns the previous value.
    pub fn fetch_nand(&self, val: i64, _order: Ordering) -> i64 {
        let mut g = write_lock(&self.value);
        fetch_nand_locked(&mut g, val)
    }

    /// Bitwise OR with `val`; returns the previous value.
    pub fn fetch_or(&self, val: i64, _order: Ordering) -> i64 {
        let mut g = write_lock(&self.value);
        fetch_or_locked(&mut g, val)
    }

    /// Bitwise XOR with `val`; returns the previous value.
    pub fn fetch_xor(&self, val: i64, _order: Ordering) -> i64 {
        let mut g = write_lock(&self.value);
        fetch_xor_locked(&mut g, val)
    }
}

impl Default for AtomicI64 {
    /// A cell holding zero.
    fn default() -> Self {
        AtomicI64::new(0)
    }
}

impl From<i64> for AtomicI64 {
    fn from(value: i64) -> Self {
        AtomicI64::new(value)
    }
}

/// A lock's contents have no spec-level value, so conversion promises
/// nothing beyond what `new` does.
impl vstd::std_specs::convert::FromSpecImpl<i64> for AtomicI64 {
    open spec fn obeys_from_spec() -> bool {
        false
    }

    open spec fn from_spec(v: i64) -> Self {
        arbitrary()
    }
}

} // verus!

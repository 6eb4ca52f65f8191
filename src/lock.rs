//! Trusted interface to `crossbeam_utils::sync::ShardedLock`.
//!
//! A cell's lock is shared through `&self`, so its contents change behind
//! references that Verus takes to be immutable: nothing here names what a
//! lock holds. What a write guard holds is named instead, since a guard is
//! owned by one critical section and only changes through `&mut`.
//!
//! A lock is poisoned only when a thread panics while it holds the write
//! guard. A poisoned lock means the value cannot be trusted, so every access
//! below then panics rather than hand the value on. The critical sections of
//! this crate are proved free of panics and a cell's lock is private, so a
//! cell's lock is never poisoned.
use vstd::prelude::*;
use crossbeam_utils::sync::{ShardedLock, ShardedLockWriteGuard};

verus! {

#[verifier::external_type_specification]
#[verifier::external_body]
#[verifier::reject_recursive_types(T)]
pub struct ExShardedLock<T: ?Sized>(ShardedLock<T>);

#[verifier::external_type_specification]
#[verifier::external_body]
#[verifier::reject_recursive_types(T)]
pub struct ExShardedLockWriteGuard<'a, T: ?Sized>(ShardedLockWriteGuard<'a, T>);

/// The value that a write guard on an unsigned cell gives access to.
pub uninterp spec fn guarded_u64(g: ShardedLockWriteGuard<'_, u64>) -> u64;

/// The value that a write guard on a signed cell gives access to.
pub uninterp spec fn guarded_i64(g: ShardedLockWriteGuard<'_, i64>) -> i64;

/// Relies on `ShardedLock::new`: a fresh, unpoisoned lock around `v`.
#[verifier::external_body]
pub(crate) fn new_lock<T>(v: T) -> ShardedLock<T> {
    ShardedLock::new(v)
}

/// Relies on `ShardedLock::write`: blocks until the lock is held exclusively.
/// The guard holds whatever the last writer left, so nothing is stated of it.
#[verifier::external_body]
pub(crate) fn write_lock<T>(l: &ShardedLock<T>) -> ShardedLockWriteGuard<'_, T> {
    l.write().unwrap()
}

/// Relies on `ShardedLock::read` and `Deref` of its read guard: a copy of
/// the value under the shared lock. Other holders may write before and after,
/// so nothing is stated of it.
#[verifier::external_body]
pub(crate) fn read_lock<T: Copy>(l: &ShardedLock<T>) -> T {
    *l.read().unwrap()
}

/// Relies on `ShardedLock::get_mut`: the value, borrowed through exclusive
/// ownership of the lock.
#[verifier::external_body]
pub(crate) fn lock_get_mut<T>(l: &mut ShardedLock<T>) -> &mut T {
    l.get_mut().unwrap()
}

/// Relies on `ShardedLock::into_inner`: consumes the lock and hands out its value.
#[verifier::external_body]
pub(crate) fn lock_into_inner<T>(l: ShardedLock<T>) -> T {
    l.into_inner().unwrap()
}

/// Relies on `Deref` of `ShardedLockWriteGuard`: reads the guarded value.
#[verifier::external_body]
pub(crate) fn guard_get_u64(g: &ShardedLockWriteGuard<'_, u64>) -> (r: u64)
    ensures
        r == guarded_u64(*g),
{
    **g
}

/// Relies on `DerefMut` of `ShardedLockWriteGuard`: overwrites the guarded value.
#[verifier::external_body]
pub(crate) fn guard_set_u64(g: &mut ShardedLockWriteGuard<'_, u64>, v: u64)
    ensures
        guarded_u64(*final(g)) == v,
{
    **g = v;
}

/// Relies on `Deref` of `ShardedLockWriteGuard`: reads the guarded value.
#[verifier::external_body]
pub(crate) fn guard_get_i64(g: &ShardedLockWriteGuard<'_, i64>) -> (r: i64)
    ensures
        r == guarded_i64(*g),
{
    **g
}

/// Relies on `DerefMut` of `ShardedLockWriteGuard`: overwrites the guarded value.
#[verifier::external_body]
pub(crate) fn guard_set_i64(g: &mut ShardedLockWriteGuard<'_, i64>, v: i64)
    ensures
        guarded_i64(*final(g)) == v,
{
    **g = v;
}

} // verus!

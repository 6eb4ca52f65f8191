//! Atomic 64-bit integer cells for targets without native 64-bit atomics.
//!
//! Each cell keeps its value behind a sharded reader-writer lock and offers
//! the operation set of the standard atomic integer types. Every
//! read-modify-write runs as one critical section under the exclusive lock;
//! the memory-ordering arguments are accepted for signature compatibility and
//! have no further effect, since the lock already orders every access.

pub mod arith;
pub mod lock;
pub mod atomic_u64;
pub mod atomic_i64;
pub mod laws;

pub use atomic_i64::AtomicI64;
pub use atomic_u64::AtomicU64;

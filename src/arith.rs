//! Wrap-around arithmetic of 64-bit payloads, stated over mathematical
//! integers.
use vstd::prelude::*;

verus! {

/// Number of distinct 64-bit values.
pub open spec fn modulus() -> int {
    0x1_0000_0000_0000_0000
}

/// The unsigned 64-bit value congruent to `x` modulo 2^64.
pub open spec fn wrap_u64(x: int) -> u64 {
    (x % modulus()) as u64
}

/// The signed (two's-complement) 64-bit value congruent to `x` modulo 2^64.
pub open spec fn wrap_i64(x: int) -> i64 {
    let m = x % modulus();
    if m > i64::MAX {
        (m - modulus()) as i64
    } else {
        m as i64
    }
}

} // verus!

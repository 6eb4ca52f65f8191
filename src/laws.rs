//! Laws that relate the effects of several operations on one cell, stated
//! over the functions that the critical sections' contracts use.
use vstd::prelude::*;
use vstd::arithmetic::div_mod::{lemma_add_mod_noop, lemma_mod_twice, lemma_sub_mod_noop};
use crate::arith::{modulus, wrap_i64, wrap_u64};

verus! {

/// Two values are congruent exactly when they wrap to the same unsigned value.
proof fn wrap_u64_congruent(x: int, y: int)
    requires
        x % modulus() == y % modulus(),
    ensures
        wrap_u64(x) == wrap_u64(y),
{
}

/// A wrapped signed value is congruent to what was wrapped.
proof fn wrap_i64_residue(x: int)
    ensures
        (wrap_i64(x) as int) % modulus() == x % modulus(),
{
    let m = x % modulus();
    if m > i64::MAX {
        assert((m - modulus()) % modulus() == m % modulus()) by {
            lemma_sub_mod_noop(m, modulus(), modulus());
            lemma_mod_twice(m, modulus());
        }
        lemma_mod_twice(x, modulus());
    } else {
        lemma_mod_twice(x, modulus());
    }
}

/// Two values are congruent exactly when they wrap to the same signed value.
proof fn wrap_i64_congruent(x: int, y: int)
    requires
        x % modulus() == y % modulus(),
    ensures
        wrap_i64(x) == wrap_i64(y),
{
}

/// `fetch_add(d)` followed by `fetch_sub(d)` leaves an unsigned cell as it
/// was, also where the addition wraps past 2^64.
pub proof fn add_then_sub_restores_u64(v: u64, d: u64)
    ensures
        wrap_u64(wrap_u64(v + d) - d) == v,
{
    let s = v + d;
    assert((wrap_u64(s) - d) % modulus() == (s - d) % modulus()) by {
        lemma_sub_mod_noop(s, d as int, modulus());
        lemma_sub_mod_noop(s % modulus(), d as int, modulus());
        lemma_mod_twice(s, modulus());
        assert((d as int) % modulus() == d);
    }
    wrap_u64_congruent(wrap_u64(s) - d, v as int);
}

/// `fetch_add(d)` followed by `fetch_sub(d)` leaves a signed cell as it
/// was, also where the addition wraps past the signed range.
pub proof fn add_then_sub_restores_i64(v: i64, d: i64)
    ensures
        wrap_i64(wrap_i64(v + d) - d) == v,
{
    let s = v + d;
    let w = wrap_i64(s) as int;
    wrap_i64_residue(s);
    assert((w - d) % modulus() == (s - d) % modulus()) by {
        lemma_sub_mod_noop(w, d as int, modulus());
        lemma_sub_mod_noop(s, d as int, modulus());
    }
    wrap_i64_congruent(w - d, v as int);
}

/// With every bit of the mask set `fetch_and` leaves an unsigned value as it
/// was; `fetch_xor(0)` does too; two `fetch_xor` with one mask restore it.
pub proof fn bitwise_identities_u64(v: u64, mask: u64)
    ensures
        v & u64::MAX == v,
        v ^ 0 == v,
        (v ^ mask) ^ mask == v,
{
    assert(v & u64::MAX == v) by (bit_vector);
    assert(v ^ 0 == v) by (bit_vector);
    assert((v ^ mask) ^ mask == v) by (bit_vector);
}

/// With every bit of the mask set (`-1`) `fetch_and` leaves a signed value as
/// it was; `fetch_xor(0)` does too; two `fetch_xor` with one mask restore it.
pub proof fn bitwise_identities_i64(v: i64, mask: i64)
    ensures
        v & -1i64 == v,
        v ^ 0 == v,
        (v ^ mask) ^ mask == v,
{
    assert(v & -1i64 == v) by (bit_vector);
    assert(v ^ 0 == v) by (bit_vector);
    assert((v ^ mask) ^ mask == v) by (bit_vector);
}

/// The value of an unsigned cell after `n` increments by one, each one
/// applied to the value that the one before left.
pub open spec fn increments_u64(v: u64, n: nat) -> u64
    decreases n,
{
    if n == 0 {
        v
    } else {
        wrap_u64(increments_u64(v, (n - 1) as nat) + 1)
    }
}

/// `n` increments by one, applied one after another in any order, raise an
/// unsigned cell by `n` modulo 2^64: none of them is lost.
pub proof fn increments_add_up_u64(v: u64, n: nat)
    ensures
        increments_u64(v, n) == wrap_u64(v + n),
    decreases n,
{
    if n > 0 {
        increments_add_up_u64(v, (n - 1) as nat);
        let x = v + n - 1;
        assert((wrap_u64(x) + 1) % modulus() == (x + 1) % modulus()) by {
            lemma_add_mod_noop(x, 1, modulus());
            lemma_add_mod_noop(x % modulus(), 1, modulus());
            lemma_mod_twice(x, modulus());
        }
        wrap_u64_congruent(wrap_u64(x) + 1, x + 1);
    }
}

/// The value of a signed cell after `n` increments by one, each one applied
/// to the value that the one before left.
pub open spec fn increments_i64(v: i64, n: nat) -> i64
    decreases n,
{
    if n == 0 {
        v
    } else {
        wrap_i64(increments_i64(v, (n - 1) as nat) + 1)
    }
}

/// `n` increments by one, applied one after another in any order, raise a
/// signed cell by `n` with two's-complement wrap-around: none of them is lost.
pub proof fn increments_add_up_i64(v: i64, n: nat)
    ensures
        increments_i64(v, n) == wrap_i64(v + n),
    decreases n,
{
    if n > 0 {
        increments_add_up_i64(v, (n - 1) as nat);
        let x = v + n - 1;
        let w = wrap_i64(x) as int;
        wrap_i64_residue(x);
        assert((w + 1) % modulus() == (x + 1) % modulus()) by {
            lemma_add_mod_noop(w, 1, modulus());
            lemma_add_mod_noop(x, 1, modulus());
        }
        wrap_i64_congruent(w + 1, x + 1);
    }
}

} // verus!

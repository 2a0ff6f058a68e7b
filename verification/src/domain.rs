//! The exact domain: unsigned 128-bit integers whose arithmetic wraps.
//!
//! A value of the domain stands for a residue modulo `2^128`. The lemmas
//! here say that the wrapping operations of `u128` compute on residues, so
//! that an identity over the naturals carries over to the domain.

use vstd::arithmetic::div_mod::lemma_mul_mod_noop_general;
use vstd::prelude::*;
use vstd::wrapping::u128_specs;

use crate::sequence::{fib, lemma_exact_range, lemma_fib_step};

verus! {

/// The largest index whose Fibonacci number fits the domain. Up to it the
/// strategies return the Fibonacci number itself, beyond it a residue.
pub const LAST_EXACT_INDEX: u64 = 186;

/// The number of values in the domain, `2^128`.
pub open spec fn width() -> int {
    0x1_0000_0000_0000_0000_0000_0000_0000_0000int
}

/// The value of the domain that stands for the integer `x`: its residue
/// modulo `2^128`.
pub open spec fn wrap(x: int) -> u128 {
    (x % width()) as u128
}

/// What every exact strategy returns for index `n`: `F(n)` modulo `2^128`.
pub open spec fn fib_wrapped(n: nat) -> u128 {
    wrap(fib(n) as int)
}

/// Wrapping addition adds residues.
pub proof fn lemma_wrap_add(x: int, y: int)
    ensures
        u128_specs::wrapping_add(wrap(x), wrap(y)) == wrap(x + y),
{
}

/// Wrapping subtraction subtracts residues.
pub proof fn lemma_wrap_sub(x: int, y: int)
    ensures
        u128_specs::wrapping_sub(wrap(x), wrap(y)) == wrap(x - y),
{
}

/// Wrapping multiplication multiplies residues.
pub proof fn lemma_wrap_mul(x: int, y: int)
    ensures
        u128_specs::wrapping_mul(wrap(x), wrap(y)) == wrap(x * y),
{
    lemma_mul_mod_noop_general(x, y, width());
}

/// Within the safe range nothing wraps: up to index 186 the value of the
/// domain is the Fibonacci number itself.
pub proof fn lemma_exact_in_safe_range(n: nat)
    requires
        n <= LAST_EXACT_INDEX,
    ensures
        fib_wrapped(n) == fib(n),
{
    lemma_exact_range(n);
}

/// The domain obeys the recurrence, with wrapping addition.
pub proof fn lemma_fib_wrapped_step(n: nat)
    ensures
        fib_wrapped(0) == 0,
        fib_wrapped(1) == 1,
        fib_wrapped(n + 2) == u128_specs::wrapping_add(fib_wrapped(n), fib_wrapped(n + 1)),
{
    lemma_fib_step(n);
    lemma_wrap_add(fib(n) as int, fib(n + 1) as int);
}

} // verus!

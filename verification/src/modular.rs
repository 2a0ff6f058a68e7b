//! Arithmetic modulo an arbitrary 128-bit modulus.
//!
//! The operands are residues, below the modulus. No intermediate value
//! leaves the 128-bit range, whatever the modulus: the sum and the difference
//! are folded back by a comparison, the product is built by doubling.

use vstd::arithmetic::div_mod::{
    lemma_add_mod_noop, lemma_add_mod_noop_right, lemma_mod_add_multiples_vanish,
    lemma_mod_self_0, lemma_mul_mod_noop_left, lemma_small_mod,
};
use vstd::prelude::*;

verus! {

/// The largest modulus for which every product of two residues fits in 128
/// bits, `2^64`.
pub const DIRECT_PRODUCT_LIMIT: u128 = 0x1_0000_0000_0000_0000;

/// `(a + b) mod modulus`, for residues `a` and `b`.
pub fn add_mod(a: u128, b: u128, modulus: u128) -> (sum: u128)
    requires
        a < modulus,
        b < modulus,
    ensures
        sum == (a + b) % (modulus as int),
        sum < modulus,
{
    let room: u128 = modulus - b;
    if a >= room {
        proof {
            lemma_fold_once(a + b, modulus as int);
        }
        a - room
    } else {
        proof {
            lemma_small_mod((a + b) as nat, modulus as nat);
        }
        a + b
    }
}

/// `(a - b) mod modulus`, for residues `a` and `b`: the residue that gives
/// `a` when `b` is added to it.
pub fn sub_mod(a: u128, b: u128, modulus: u128) -> (difference: u128)
    requires
        a < modulus,
        b < modulus,
    ensures
        difference == (a - b) % (modulus as int),
        difference < modulus,
{
    if a >= b {
        proof {
            lemma_small_mod((a - b) as nat, modulus as nat);
        }
        a - b
    } else {
        proof {
            lemma_mod_add_multiples_vanish(a - b, modulus as int);
            lemma_small_mod((a - b + modulus) as nat, modulus as nat);
        }
        modulus - (b - a)
    }
}

/// `(a · b) mod modulus`, for residues `a` and `b`.
///
/// Up to [`DIRECT_PRODUCT_LIMIT`] the product is formed and reduced. Above
/// it the product is summed up from doublings of `a`, one for each binary
/// digit of `b`, each reduced as it is formed.
pub fn mul_mod(a: u128, b: u128, modulus: u128) -> (product: u128)
    requires
        a < modulus,
        b < modulus,
    ensures
        product == (a * b) % (modulus as int),
        product < modulus,
{
    if modulus <= DIRECT_PRODUCT_LIMIT {
        assert(a * b <= u128::MAX) by (nonlinear_arith)
            requires
                a < 0x1_0000_0000_0000_0000,
                b < 0x1_0000_0000_0000_0000,
        ;
        return (a * b) % modulus;
    }
    let mut sum: u128 = 0;
    let mut term: u128 = a;
    let mut digits: u128 = b;
    proof {
        lemma_small_mod(0, modulus as nat);
        assert(0 + a * b == a * b);
    }
    while digits > 0
        invariant
            sum < modulus,
            term < modulus,
            (sum + term * digits) % (modulus as int) == (a * b) % (modulus as int),
        decreases digits,
    {
        proof {
            lemma_digit_step(sum as int, term as int, digits as int, modulus as int);
        }
        if digits % 2 == 1 {
            sum = add_mod(sum, term, modulus);
        }
        term = add_mod(term, term, modulus);
        digits = digits / 2;
    }
    proof {
        assert(term * digits == 0) by (nonlinear_arith)
            requires
                digits == 0,
        ;
        lemma_small_mod(sum as nat, modulus as nat);
    }
    sum
}

/// A value in `[m, 2m)` is reduced by taking `m` away once.
proof fn lemma_fold_once(x: int, m: int)
    requires
        0 < m,
        m <= x < 2 * m,
    ensures
        x % m == x - m,
{
    lemma_small_mod((x - m) as nat, m as nat);
    lemma_add_mod_noop_right(x - m, m, m);
    lemma_mod_self_0(m);
}

/// One binary digit of the multiplier: taking the lowest digit into the sum
/// and doubling the term leaves `sum + term · digits` unchanged modulo `m`.
proof fn lemma_digit_step(sum: int, term: int, digits: int, m: int)
    requires
        0 < m,
        0 < digits,
    ensures
        (((sum + (digits % 2) * term) % m) + ((2 * term) % m) * (digits / 2)) % m == (sum + term
            * digits) % m,
        digits % 2 == 0 ==> (sum + ((2 * term) % m) * (digits / 2)) % m == (sum + term * digits)
            % m,
        digits % 2 == 1 ==> (((sum + term) % m) + ((2 * term) % m) * (digits / 2)) % m == (sum
            + term * digits) % m,
{
    let half = digits / 2;
    let low = digits % 2;
    let taken = sum + low * term;
    let doubled = 2 * term;
    assert(taken + doubled * half == sum + term * digits) by (nonlinear_arith)
        requires
            digits == 2 * half + low,
            taken == sum + low * term,
            doubled == 2 * term,
    ;
    lemma_mul_mod_noop_left(doubled, half, m);
    lemma_add_mod_noop_right(taken % m, (doubled % m) * half, m);
    lemma_add_mod_noop(taken, doubled * half, m);
    if low == 0 {
        assert(low * term == 0) by (nonlinear_arith)
            requires
                low == 0,
        ;
        lemma_add_mod_noop_right(sum, (doubled % m) * half, m);
        lemma_add_mod_noop_right(sum, doubled * half, m);
    } else {
        assert(low * term == term) by (nonlinear_arith)
            requires
                low == 1,
        ;
    }
}

} // verus!

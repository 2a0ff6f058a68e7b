//! The logarithmic-time strategies: powers of the matrix `[[1, 1], [1, 0]]`
//! by repeated squaring, the doubling identities that give the same result
//! without a matrix, and the doubling identities modulo a chosen modulus.

use vstd::arithmetic::div_mod::{
    lemma_add_mod_noop, lemma_mul_mod_noop_general, lemma_small_mod, lemma_sub_mod_noop,
};
use vstd::prelude::*;
use vstd::wrapping::u128_specs;

use crate::domain::{fib_wrapped, lemma_wrap_add, lemma_wrap_mul, lemma_wrap_sub, wrap};
use crate::modular::{add_mod, mul_mod, sub_mod};
use crate::sequence::{fib, fib_before, lemma_fib_doubling, lemma_fib_power_product, lemma_fib_step};

verus! {

/// A 2×2 matrix over the exact domain, as a pair of rows.
#[derive(Clone, Copy, Debug, PartialEq, Eq)]
pub struct Matrix2x2 {
    pub top: (u128, u128),
    pub bottom: (u128, u128),
}

/// The modulus that was refused: 0 or 1.
#[derive(Clone, Copy, Debug, PartialEq, Eq, Structural)]
pub struct InvalidModulus {
    pub modulus: u128,
}

impl Matrix2x2 {
    /// The `k`th power of `[[1, 1], [1, 0]]` in the exact domain:
    /// `[[F(k+1), F(k)], [F(k), F(k-1)]]`, each entry modulo `2^128`.
    pub open spec fn power_of_step(k: nat) -> Matrix2x2 {
        Matrix2x2 {
            top: (fib_wrapped(k + 1), fib_wrapped(k)),
            bottom: (fib_wrapped(k), wrap(fib_before(k) as int)),
        }
    }

    /// The matrix product, with wrapping sums and products.
    pub open spec fn product(self, rhs: Matrix2x2) -> Matrix2x2 {
        Matrix2x2 {
            top: (
                dot(self.top, (rhs.top.0, rhs.bottom.0)),
                dot(self.top, (rhs.top.1, rhs.bottom.1)),
            ),
            bottom: (
                dot(self.bottom, (rhs.top.0, rhs.bottom.0)),
                dot(self.bottom, (rhs.top.1, rhs.bottom.1)),
            ),
        }
    }

    /// The identity matrix, the power with exponent 0.
    pub fn identity() -> (matrix: Matrix2x2)
        ensures
            matrix == (Matrix2x2 { top: (1, 0), bottom: (0, 1) }),
            matrix == Matrix2x2::power_of_step(0),
    {
        Matrix2x2 { top: (1, 0), bottom: (0, 1) }
    }

    /// The matrix `[[1, 1], [1, 0]]`, one step of the recurrence.
    pub fn step() -> (matrix: Matrix2x2)
        ensures
            matrix == (Matrix2x2 { top: (1, 1), bottom: (1, 0) }),
            matrix == Matrix2x2::power_of_step(1),
    {
        assert(fib(2) == 1) by {
            reveal_with_fuel(fib, 3);
        }
        Matrix2x2 { top: (1, 1), bottom: (1, 0) }
    }

    /// The product of `self` and `rhs`, in this order.
    pub fn multiply(&self, rhs: &Matrix2x2) -> (matrix: Matrix2x2)
        ensures
            matrix == self.product(*rhs),
    {
        Matrix2x2 {
            top: (
                self.top.0.wrapping_mul(rhs.top.0).wrapping_add(
                    self.top.1.wrapping_mul(rhs.bottom.0),
                ),
                self.top.0.wrapping_mul(rhs.top.1).wrapping_add(
                    self.top.1.wrapping_mul(rhs.bottom.1),
                ),
            ),
            bottom: (
                self.bottom.0.wrapping_mul(rhs.top.0).wrapping_add(
                    self.bottom.1.wrapping_mul(rhs.bottom.0),
                ),
                self.bottom.0.wrapping_mul(rhs.top.1).wrapping_add(
                    self.bottom.1.wrapping_mul(rhs.bottom.1),
                ),
            ),
        }
    }

    /// The powers of `[[1, 1], [1, 0]]` are closed under the product, and
    /// the exponents add up.
    pub proof fn lemma_product_of_powers(j: nat, k: nat)
        ensures
            Matrix2x2::power_of_step(j).product(Matrix2x2::power_of_step(k))
                == Matrix2x2::power_of_step(j + k),
    {
        lemma_fib_power_product(j, k);
        lemma_dot(fib(j + 1) as int, fib(j) as int, fib(k + 1) as int, fib(k) as int);
        lemma_dot(fib(j + 1) as int, fib(j) as int, fib(k) as int, fib_before(k) as int);
        lemma_dot(fib(j) as int, fib_before(j) as int, fib(k + 1) as int, fib(k) as int);
        lemma_dot(fib(j) as int, fib_before(j) as int, fib(k) as int, fib_before(k) as int);
    }
}

/// The wrapping dot product of a row and a column.
pub open spec fn dot(row: (u128, u128), column: (u128, u128)) -> u128 {
    u128_specs::wrapping_add(
        u128_specs::wrapping_mul(row.0, column.0),
        u128_specs::wrapping_mul(row.1, column.1),
    )
}

/// The wrapping dot product computes on residues.
proof fn lemma_dot(a: int, b: int, x: int, y: int)
    ensures
        dot((wrap(a), wrap(b)), (wrap(x), wrap(y))) == wrap(a * x + b * y),
{
    lemma_wrap_mul(a, x);
    lemma_wrap_mul(b, y);
    lemma_wrap_add(a * x, b * y);
}

/// The `n`th Fibonacci number modulo `2^128`, read off the `n`th power of
/// `[[1, 1], [1, 0]]`, which is built by repeated squaring.
pub fn fib_matrix_fast(n: u64) -> (result: u128)
    ensures
        result == fib_wrapped(n as nat),
{
    let mut power: Matrix2x2 = Matrix2x2::identity();
    let mut square: Matrix2x2 = Matrix2x2::step();
    let mut exponent: u64 = n;
    let ghost mut reached: nat = 0;
    let ghost mut stride: nat = 1;
    assert(0 + 1 * exponent == n) by (nonlinear_arith)
        requires
            exponent == n,
    ;
    while exponent > 0
        invariant
            power == Matrix2x2::power_of_step(reached),
            square == Matrix2x2::power_of_step(stride),
            reached + stride * exponent == n,
        decreases exponent,
    {
        let ghost half: nat = (exponent / 2) as nat;
        if exponent % 2 == 1 {
            proof {
                Matrix2x2::lemma_product_of_powers(reached, stride);
                assert(reached + stride + (2 * stride) * half == reached + stride * exponent)
                    by (nonlinear_arith)
                    requires
                        exponent == 2 * half + 1,
                ;
                reached = reached + stride;
            }
            power = power.multiply(&square);
        } else {
            proof {
                assert(reached + (2 * stride) * half == reached + stride * exponent)
                    by (nonlinear_arith)
                    requires
                        exponent == 2 * half,
                ;
            }
        }
        proof {
            Matrix2x2::lemma_product_of_powers(stride, stride);
            stride = 2 * stride;
        }
        square = square.multiply(&square);
        exponent = exponent / 2;
    }
    assert(reached == n) by (nonlinear_arith)
        requires
            reached + stride * exponent == n,
            exponent == 0,
    ;
    power.top.1
}

/// `F(n)` and `F(n+1)` modulo `2^128`, by the doubling identities
/// `F(2k) = F(k)·(2·F(k+1) − F(k))` and `F(2k+1) = F(k)² + F(k+1)²`, one
/// application for each binary digit of `n`.
pub fn fib_doubling_pair(n: u64) -> (pair: (u128, u128))
    ensures
        pair.0 == fib_wrapped(n as nat),
        pair.1 == fib_wrapped((n + 1) as nat),
    decreases n,
{
    if n == 0 {
        return (0, 1);
    }
    let half: u64 = n / 2;
    let (low, high) = fib_doubling_pair(half);
    let even: u128 = low.wrapping_mul(high.wrapping_add(high).wrapping_sub(low));
    let odd: u128 = low.wrapping_mul(low).wrapping_add(high.wrapping_mul(high));
    proof {
        let a = fib(half as nat) as int;
        let b = fib((half + 1) as nat) as int;
        lemma_fib_doubling(half as nat);
        lemma_wrap_add(b, b);
        lemma_wrap_sub(b + b, a);
        lemma_wrap_mul(a, b + b - a);
        lemma_wrap_mul(a, a);
        lemma_wrap_mul(b, b);
        lemma_wrap_add(a * a, b * b);
        assert(even == fib_wrapped(2 * (half as nat)));
        assert(odd == fib_wrapped(2 * (half as nat) + 1));
    }
    if n % 2 == 0 {
        (even, odd)
    } else {
        proof {
            lemma_fib_step(2 * (half as nat));
            lemma_wrap_add(fib(2 * (half as nat)) as int, fib(2 * (half as nat) + 1) as int);
        }
        (odd, even.wrapping_add(odd))
    }
}

/// The `n`th Fibonacci number modulo `2^128`, by the doubling identities.
pub fn fib_doubling(n: u64) -> (result: u128)
    ensures
        result == fib_wrapped(n as nat),
{
    fib_doubling_pair(n).0
}

/// `F(n) mod modulus` and `F(n+1) mod modulus`, by the doubling identities
/// with every sum, difference and product reduced as it is formed.
pub fn fib_doubling_pair_modulo(n: u64, modulus: u128) -> (pair: (u128, u128))
    requires
        modulus > 0,
    ensures
        pair.0 == fib(n as nat) % (modulus as nat),
        pair.1 == fib((n + 1) as nat) % (modulus as nat),
    decreases n,
{
    if n == 0 {
        proof {
            lemma_small_mod(0, modulus as nat);
        }
        return (0, 1 % modulus);
    }
    let half: u64 = n / 2;
    let (low, high) = fib_doubling_pair_modulo(half, modulus);
    let twice: u128 = add_mod(high, high, modulus);
    let even: u128 = mul_mod(low, sub_mod(twice, low, modulus), modulus);
    let odd: u128 = add_mod(mul_mod(low, low, modulus), mul_mod(high, high, modulus), modulus);
    proof {
        let m = modulus as int;
        let a = fib(half as nat) as int;
        let b = fib((half + 1) as nat) as int;
        lemma_fib_doubling(half as nat);
        lemma_add_mod_noop(b, b, m);
        lemma_sub_mod_noop(b + b, a, m);
        lemma_mul_mod_noop_general(a, b + b - a, m);
        lemma_mul_mod_noop_general(a, a, m);
        lemma_mul_mod_noop_general(b, b, m);
        lemma_add_mod_noop(a * a, b * b, m);
        assert(even == fib(2 * (half as nat)) % (modulus as nat));
        assert(odd == fib(2 * (half as nat) + 1) % (modulus as nat));
    }
    if n % 2 == 0 {
        (even, odd)
    } else {
        proof {
            lemma_fib_step(2 * (half as nat));
            lemma_add_mod_noop(
                fib(2 * (half as nat)) as int,
                fib(2 * (half as nat) + 1) as int,
                modulus as int,
            );
        }
        (odd, add_mod(even, odd, modulus))
    }
}

/// `F(n) mod modulus`. A modulus of 0 or 1 is refused, and no other.
pub fn fib_matrix_modulo(n: u64, modulus: u128) -> (result: Result<u128, InvalidModulus>)
    ensures
        modulus < 2 ==> result == Err::<u128, InvalidModulus>((InvalidModulus { modulus })),
        modulus >= 2 ==> result == Ok::<u128, InvalidModulus>(
            (fib(n as nat) % (modulus as nat)) as u128,
        ),
{
    if modulus < 2 {
        return Err(InvalidModulus { modulus });
    }
    Ok(fib_doubling_pair_modulo(n, modulus).0)
}

} // verus!

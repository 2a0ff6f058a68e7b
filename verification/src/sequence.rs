//! The mathematical Fibonacci sequence and the identities that the fast
//! strategies rest on.
//!
//! Everything here is ghost code over unbounded naturals. The executable
//! strategies state their results against [`fib`] through
//! [`crate::domain::fib_wrapped`].

use vstd::prelude::*;

verus! {

/// The Fibonacci sequence over the natural numbers: `F(0) = 0`, `F(1) = 1`
/// and `F(n) = F(n-1) + F(n-2)` from there on.
pub open spec fn fib(n: nat) -> nat
    decreases n,
{
    if n < 2 {
        n
    } else {
        fib((n - 1) as nat) + fib((n - 2) as nat)
    }
}

/// The term before `F(k)`, with the sequence carried one step to the left:
/// `F(-1) = 1`, so that `F(1) = F(0) + F(-1)`.
pub open spec fn fib_before(k: nat) -> nat {
    if k == 0 {
        1
    } else {
        fib((k - 1) as nat)
    }
}

/// Each term is the sum of the two before it.
pub proof fn lemma_fib_step(n: nat)
    ensures
        fib(n + 2) == fib(n + 1) + fib(n),
{
    assert((n + 2 - 1) as nat == n + 1);
    assert((n + 2 - 2) as nat == n);
}

/// The sequence never decreases.
pub proof fn lemma_fib_nondecreasing(i: nat, j: nat)
    requires
        i <= j,
    ensures
        fib(i) <= fib(j),
    decreases j,
{
    if i < j {
        lemma_fib_nondecreasing(i, (j - 1) as nat);
        assert(fib((j - 1) as nat) <= fib(j));
    }
}

/// The addition formula: `F(m+n+1) = F(m+1)·F(n+1) + F(m)·F(n)`.
pub proof fn lemma_fib_addition(m: nat, n: nat)
    ensures
        fib(m + n + 1) == fib(m + 1) * fib(n + 1) + fib(m) * fib(n),
    decreases n,
{
    let a = fib(m + 1);
    let b = fib(m);
    if n == 0 {
        assert(fib(1) == 1 && fib(0) == 0);
        assert(a * 1 + b * 0 == a) by (nonlinear_arith);
    } else if n == 1 {
        assert(fib(2) == 1 && fib(1) == 1) by {
            reveal_with_fuel(fib, 3);
        }
        lemma_fib_step(m);
        assert(a * 1 + b * 1 == a + b) by (nonlinear_arith);
    } else {
        let x = fib(n as nat);
        let y = fib((n - 1) as nat);
        let z = fib((n - 2) as nat);
        lemma_fib_addition(m, (n - 1) as nat);
        lemma_fib_addition(m, (n - 2) as nat);
        assert(m + (n - 1) as nat + 1 == m + n);
        assert(m + (n - 2) as nat + 1 == m + n - 1);
        assert(((n - 2) as nat + 1) as nat == (n - 1) as nat);
        assert(fib(m + n) == a * x + b * y);
        assert(fib((m + n - 1) as nat) == a * y + b * z);
        assert(fib(n + 1) == x + y) by {
            lemma_fib_step((n - 1) as nat);
        }
        assert(x == y + z);
        assert(fib(m + n + 1) == fib(m + n) + fib((m + n - 1) as nat)) by {
            lemma_fib_step((m + n - 1) as nat);
        }
        assert(a * (x + y) + b * (y + z) == (a * x + b * y) + (a * y + b * z))
            by (nonlinear_arith);
    }
}

/// The doubling identities: `F(2k) = F(k)·(2·F(k+1) − F(k))` and
/// `F(2k+1) = F(k)² + F(k+1)²`.
pub proof fn lemma_fib_doubling(k: nat)
    ensures
        fib(k) <= 2 * fib(k + 1),
        fib(2 * k) == fib(k) * (2 * fib(k + 1) - fib(k)),
        fib(2 * k + 1) == fib(k) * fib(k) + fib(k + 1) * fib(k + 1),
{
    let a = fib(k);
    let b = fib(k + 1);
    lemma_fib_nondecreasing(k, k + 1);
    lemma_fib_addition(k, k);
    assert(k + k + 1 == 2 * k + 1);
    assert(b * b + a * a == a * a + b * b);
    if k == 0 {
        assert(a == 0);
        assert(0 * (2 * b - 0) == 0) by (nonlinear_arith);
    } else {
        let p = fib((k - 1) as nat);
        lemma_fib_addition((k - 1) as nat, k);
        assert((k - 1) as nat + k + 1 == 2 * k);
        assert(((k - 1) as nat + 1) as nat == k);
        assert(fib(2 * k) == a * b + p * a);
        assert(b == a + p) by {
            lemma_fib_step((k - 1) as nat);
        }
        assert(a * b + p * a == a * (2 * b - a)) by (nonlinear_arith)
            requires
                b == a + p,
        ;
    }
}

/// The four entries of the product of the `j`th and the `k`th power of
/// `[[1, 1], [1, 0]]`, where the `k`th power is
/// `[[F(k+1), F(k)], [F(k), F(k-1)]]`.
pub proof fn lemma_fib_power_product(j: nat, k: nat)
    ensures
        fib(j + 1) * fib(k + 1) + fib(j) * fib(k) == fib(j + k + 1),
        fib(j + 1) * fib(k) + fib(j) * fib_before(k) == fib(j + k),
        fib(j) * fib(k + 1) + fib_before(j) * fib(k) == fib(j + k),
        fib(j) * fib(k) + fib_before(j) * fib_before(k) == fib_before(j + k),
{
    lemma_fib_addition(j, k);
    lemma_fib_side_entry(j, k);
    lemma_fib_side_entry(k, j);
    assert(fib(j) * fib(k + 1) + fib_before(j) * fib(k) == fib(k + 1) * fib(j) + fib(k)
        * fib_before(j)) by (nonlinear_arith);
    let a = fib(j);
    let b = fib(k);
    if j == 0 {
        assert(0 * b + 1 * fib_before(k) == fib_before(k)) by (nonlinear_arith);
    } else if k == 0 {
        assert(a * 0 + fib_before(j) * 1 == fib_before(j)) by (nonlinear_arith);
    } else {
        lemma_fib_addition((j - 1) as nat, (k - 1) as nat);
        assert((j - 1) as nat + (k - 1) as nat + 1 == j + k - 1);
        assert(((j - 1) as nat + 1) as nat == j);
        assert(((k - 1) as nat + 1) as nat == k);
    }
}

/// An off-diagonal entry of that product: `F(j+1)·F(k) + F(j)·F(k-1) = F(j+k)`.
proof fn lemma_fib_side_entry(j: nat, k: nat)
    ensures
        fib(j + 1) * fib(k) + fib(j) * fib_before(k) == fib(j + k),
{
    let a = fib(j + 1);
    let b = fib(j);
    if k == 0 {
        assert(a * 0 + b * 1 == b) by (nonlinear_arith);
    } else {
        lemma_fib_addition(j, (k - 1) as nat);
        assert(j + (k - 1) as nat + 1 == j + k);
        assert(((k - 1) as nat + 1) as nat == k);
    }
}

/// The doubling identities on known values: from `F(k)` and `F(k+1)` to
/// `F(2k)`, `F(2k+1)` and `F(2k+2)`.
pub proof fn lemma_double_values(k: nat, a: nat, b: nat, c: nat, d: nat)
    requires
        fib(k) == a,
        fib(k + 1) == b,
        a <= 2 * b,
        c == a * (2 * b - a),
        d == a * a + b * b,
    ensures
        fib(2 * k) == c,
        fib(2 * k + 1) == d,
        fib(2 * k + 2) == c + d,
{
    lemma_fib_doubling(k);
    lemma_fib_step(2 * k);
}

/// The Fibonacci numbers at the two indices around the edge of the 128-bit
/// range, written out.
pub proof fn lemma_fib_at_range_edge()
    ensures
        fib(186) == 332825110087067562321196029789634457848,
        fib(187) == 538522340430300790495419781092981030533nat,
{
    assert(fib(1) == 1 && fib(2) == 1) by {
        reveal_with_fuel(fib, 3);
    }
    lemma_double_values(1, 1, 1, 1, 2);
    lemma_double_values(2, 1, 2, 3, 5);
    lemma_double_values(5, 5, 8, 55, 89);
    lemma_double_values(11, 89, 144, 17711, 28657);
    lemma_double_values(23, 28657, 46368, 1836311903, 2971215073);
    lemma_double_values(46, 1836311903, 2971215073, 7540113804746346429, 12200160415121876738);
    lemma_double_values(
        93,
        12200160415121876738,
        19740274219868223167,
        332825110087067562321196029789634457848,
        538522340430300790495419781092981030533nat,
    );
}

/// Up to index 186 the Fibonacci numbers fit in 128 bits, and from index
/// 187 on they no longer do.
pub proof fn lemma_exact_range(n: nat)
    ensures
        n <= 186 ==> fib(n) <= u128::MAX,
        n > 186 ==> fib(n) > u128::MAX,
{
    lemma_fib_at_range_edge();
    if n <= 186 {
        lemma_fib_nondecreasing(n, 186);
    } else {
        lemma_fib_nondecreasing(187, n);
    }
}

} // verus!

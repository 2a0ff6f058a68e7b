//! What holds between the strategies: whichever is chosen, the value is the
//! same, and within the range of the domain it is the Fibonacci number itself.
//!
//! Each statement speaks of results that the functions may return, by way of
//! their contracts.

use vstd::prelude::*;

use crate::closed_form::find_accuracy_limit;
use crate::domain::{lemma_exact_in_safe_range, LAST_EXACT_INDEX};
use crate::iterative::{fib_iterative, fib_iterative_batch, fib_iterative_branchless};
use crate::matrix::{fib_doubling, fib_matrix_fast, fib_matrix_modulo, InvalidModulus};
use crate::method::FibMethod;
use crate::recursive::{fib_recursive, fib_recursive_memo};
use crate::sequence::fib;

verus! {

/// The pass, its branch-free form, the matrix powers, the doubling
/// identities and the memoized recursion return the same value for the same
/// index, whatever the index: where one of them wraps, all do, and alike.
pub proof fn lemma_exact_strategies_agree(
    n: u64,
    iterative: u128,
    branchless: u128,
    matrix: u128,
    doubling: u128,
    memo: u128,
)
    requires
        call_ensures(fib_iterative, (n,), iterative),
        call_ensures(fib_iterative_branchless, (n,), branchless),
        call_ensures(fib_matrix_fast, (n,), matrix),
        call_ensures(fib_doubling, (n,), doubling),
        call_ensures(fib_recursive_memo, (n,), memo),
    ensures
        iterative == matrix,
        matrix == memo,
        memo == doubling,
        doubling == branchless,
{
}

/// The naive recursion returns what the pass returns.
pub proof fn lemma_recursive_matches_iterative(n: u64, recursive: u128, iterative: u128)
    requires
        call_ensures(fib_recursive, (n,), recursive),
        call_ensures(fib_iterative, (n,), iterative),
    ensures
        recursive == iterative,
{
}

/// Up to index 186 the value that a strategy returns is the Fibonacci
/// number itself: nothing has wrapped.
pub proof fn lemma_exact_up_to_last_index(n: u64, value: u128)
    requires
        n <= LAST_EXACT_INDEX,
        call_ensures(fib_iterative, (n,), value),
    ensures
        value == fib(n as nat),
{
    lemma_exact_in_safe_range(n as nat);
}

/// Every exact strategy, chosen by its tag, returns what the pass returns.
pub proof fn lemma_calculate_matches_iterative(
    method: FibMethod,
    n: u64,
    chosen: Option<u128>,
    iterative: u128,
)
    requires
        method.is_exact(),
        call_ensures(FibMethod::calculate, (&method, n), chosen),
        call_ensures(fib_iterative, (n,), iterative),
    ensures
        chosen == Some(iterative),
{
}

/// Where the Fibonacci number fits the domain, its residue is the residue of
/// the exact value: the modular strategy agrees with reducing what an exact
/// strategy returns.
pub proof fn lemma_modular_matches_exact(
    n: u64,
    modulus: u128,
    reduced: Result<u128, InvalidModulus>,
    exact: u128,
)
    requires
        modulus >= 2,
        n <= LAST_EXACT_INDEX,
        call_ensures(fib_matrix_modulo, (n, modulus), reduced),
        call_ensures(fib_iterative, (n,), exact),
    ensures
        reduced == Ok::<u128, InvalidModulus>(exact % modulus),
{
    lemma_exact_in_safe_range(n as nat);
}

/// A modulus of 0 or 1 is refused, whatever the index.
pub proof fn lemma_small_modulus_refused(
    n: u64,
    modulus: u128,
    reduced: Result<u128, InvalidModulus>,
)
    requires
        modulus < 2,
        call_ensures(fib_matrix_modulo, (n, modulus), reduced),
    ensures
        reduced is Err,
{
}

/// A batch returns, at each place, what a single call returns for the index
/// at that place.
pub proof fn lemma_batch_matches_single_calls(
    indices: &[u64],
    values: Vec<u128>,
    place: int,
    single: u128,
)
    requires
        0 <= place < indices@.len(),
        call_ensures(fib_iterative_batch, (indices,), values),
        call_ensures(fib_iterative, (indices@[place],), single),
    ensures
        values@.len() == indices@.len(),
        values@[place] == single,
{
}

/// Up to the accuracy limit of a run of rounded values, each of them is what
/// the pass returns for its index, and the value after the limit, if there
/// is one, is not.
pub proof fn lemma_rounded_exact_up_to_limit(
    rounded: &[u128],
    limit: u64,
    n: u64,
    exact: u128,
)
    requires
        call_ensures(find_accuracy_limit, (rounded,), Some(limit)),
        n < rounded@.len(),
        n <= limit + 1,
        call_ensures(fib_iterative, (n,), exact),
    ensures
        n <= limit ==> rounded@[n as int] == exact,
        n == limit + 1 ==> rounded@[n as int] != exact,
{
}

} // verus!

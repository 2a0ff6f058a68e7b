//! The integer side of the closed form.
//!
//! The closed form `(φⁿ − ψⁿ) / √5` is evaluated in floating point by the
//! caller. What is decided here is how far its rounded values can be
//! trusted: they are held against the exact values, index by index.

use vstd::prelude::*;

use crate::domain::{fib_wrapped, lemma_fib_wrapped_step};
use crate::sequence::{fib, lemma_double_values};

verus! {

/// The largest index for which the closed form is taken as accurate: the
/// last whose Fibonacci number is below `2^53`, the range in which a double
/// holds every integer.
pub const MAX_ACCURATE_N: u64 = 78;

/// The first integer that a double cannot tell from its neighbour, `2^53`.
pub const DOUBLE_INTEGER_LIMIT: u128 = 0x20_0000_0000_0000;

/// Whether the rounded values agree with the exact ones on the indices
/// `0..count`.
pub open spec fn agrees_below(rounded: Seq<u128>, count: int) -> bool {
    forall|i: int| 0 <= i < count ==> #[trigger] rounded[i] == fib_wrapped(i as nat)
}

/// `F(78)` is the last Fibonacci number below `2^53`.
pub proof fn lemma_max_accurate_index()
    ensures
        fib(MAX_ACCURATE_N as nat) < DOUBLE_INTEGER_LIMIT,
        fib((MAX_ACCURATE_N + 1) as nat) >= DOUBLE_INTEGER_LIMIT,
{
    assert(fib(1) == 1 && fib(2) == 1) by {
        reveal_with_fuel(fib, 3);
    }
    lemma_double_values(1, 1, 1, 1, 2);
    lemma_double_values(2, 1, 2, 3, 5);
    lemma_double_values(4, 3, 5, 21, 34);
    lemma_double_values(9, 34, 55, 2584, 4181);
    lemma_double_values(19, 4181, 6765, 39088169, 63245986);
    lemma_double_values(39, 63245986, 102334155, 8944394323791464, 14472334024676221);
}

/// The accuracy limit of a run of rounded values, where `rounded[i]` is the
/// rounded closed form for index `i`: the last index up to which every
/// rounded value is the exact one. It is found by a scan from index 0 that
/// stops at the first value that differs, so an agreement beyond a
/// difference does not count. `None` where index 0 already differs or there
/// is no value at all.
pub fn find_accuracy_limit(rounded: &[u128]) -> (limit: Option<u64>)
    ensures
        limit is None <==> (rounded@.len() == 0 || rounded@[0] != fib_wrapped(0)),
        limit matches Some(last) ==> {
            &&& last < rounded@.len()
            &&& agrees_below(rounded@, last + 1)
            &&& last + 1 < rounded@.len() ==> rounded@[last + 1] != fib_wrapped((last + 1) as nat)
        },
{
    let mut index: usize = 0;
    let mut low: u128 = 0;
    let mut high: u128 = 1;
    proof {
        lemma_fib_wrapped_step(0);
    }
    while index < rounded.len() && rounded[index] == low
        invariant
            index <= rounded@.len(),
            low == fib_wrapped(index as nat),
            high == fib_wrapped((index + 1) as nat),
            agrees_below(rounded@, index as int),
        decreases rounded@.len() - index,
    {
        proof {
            lemma_fib_wrapped_step(index as nat);
        }
        let next: u128 = low.wrapping_add(high);
        low = high;
        high = next;
        index = index + 1;
    }
    if index == 0 {
        None
    } else {
        Some((index - 1) as u64)
    }
}

} // verus!

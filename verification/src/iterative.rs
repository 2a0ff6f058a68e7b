//! The linear-time strategies: a single pass over the indices that keeps the
//! last two values, in several forms.

use vstd::prelude::*;

use crate::domain::{fib_wrapped, lemma_fib_wrapped_step};
use crate::matrix::fib_doubling;

verus! {

/// The pass itself: from `F(start)` and `F(start+1)` on to `F(target)` and
/// `F(target+1)`, all modulo `2^128`, one wrapping addition for each index
/// in between.
fn advance(start: u64, pair: (u128, u128), target: u64) -> (reached: (u128, u128))
    requires
        start <= target,
        pair.0 == fib_wrapped(start as nat),
        pair.1 == fib_wrapped((start + 1) as nat),
    ensures
        reached.0 == fib_wrapped(target as nat),
        reached.1 == fib_wrapped((target + 1) as nat),
{
    let mut index: u64 = start;
    let mut low: u128 = pair.0;
    let mut high: u128 = pair.1;
    while index < target
        invariant
            start <= index <= target,
            low == fib_wrapped(index as nat),
            high == fib_wrapped((index + 1) as nat),
        decreases target - index,
    {
        proof {
            lemma_fib_wrapped_step(index as nat);
        }
        let next: u128 = low.wrapping_add(high);
        low = high;
        high = next;
        index = index + 1;
    }
    (low, high)
}

/// The `n`th Fibonacci number modulo `2^128`, by one pass from index 0.
pub fn fib_iterative(n: u64) -> (result: u128)
    ensures
        result == fib_wrapped(n as nat),
{
    proof {
        lemma_fib_wrapped_step(0);
    }
    advance(0, (0, 1), n).0
}

/// The `n`th Fibonacci number modulo `2^128`, by a pass whose step holds no
/// comparison and no move: the two values sit in two slots, and the parity
/// of the index picks the slot that the next sum overwrites.
pub fn fib_iterative_branchless(n: u64) -> (result: u128)
    ensures
        result == fib_wrapped(n as nat),
{
    let mut slots: [u128; 2] = [0, 1];
    let mut index: u64 = 0;
    proof {
        lemma_fib_wrapped_step(0);
    }
    while index < n
        invariant
            index <= n,
            slots@[(index % 2) as int] == fib_wrapped(index as nat),
            slots@[((index + 1) % 2) as int] == fib_wrapped((index + 1) as nat),
        decreases n - index,
    {
        proof {
            lemma_fib_wrapped_step(index as nat);
        }
        let sum: u128 = slots[0].wrapping_add(slots[1]);
        slots[(index % 2) as usize] = sum;
        index = index + 1;
    }
    slots[(n % 2) as usize]
}

/// The Fibonacci numbers modulo `2^128` of the given indices, in the order
/// of the indices.
///
/// One pass serves a run of indices that does not fall: the pass goes on
/// from where the index before left it, and starts over at 0 only where an
/// index is below the one before.
pub fn fib_iterative_batch(indices: &[u64]) -> (values: Vec<u128>)
    ensures
        values@.len() == indices@.len(),
        forall|i: int|
            0 <= i < indices@.len() ==> #[trigger] values@[i] == fib_wrapped(indices@[i] as nat),
{
    let mut values: Vec<u128> = Vec::new();
    let mut at: u64 = 0;
    let mut pair: (u128, u128) = (0, 1);
    let mut position: usize = 0;
    proof {
        lemma_fib_wrapped_step(0);
    }
    while position < indices.len()
        invariant
            position <= indices@.len(),
            values@.len() == position,
            pair.0 == fib_wrapped(at as nat),
            pair.1 == fib_wrapped((at + 1) as nat),
            forall|i: int|
                0 <= i < position ==> #[trigger] values@[i] == fib_wrapped(indices@[i] as nat),
        decreases indices@.len() - position,
    {
        let target: u64 = indices[position];
        if target < at {
            at = 0;
            pair = (0, 1);
        }
        pair = advance(at, pair, target);
        at = target;
        values.push(pair.0);
        position = position + 1;
    }
    values
}

/// The Fibonacci numbers modulo `2^128` of the indices from 0 to a chosen
/// one, worked out once and then read by index.
pub struct FibonacciCache {
    values: Vec<u128>,
}

impl View for FibonacciCache {
    type V = Seq<u128>;

    closed spec fn view(&self) -> Seq<u128> {
        self.values@
    }
}

impl FibonacciCache {
    #[verifier::type_invariant]
    spec fn well_formed(&self) -> bool {
        &&& self.values@.len() >= 1
        &&& forall|i: int|
            0 <= i < self.values@.len() ==> #[trigger] self.values@[i] == fib_wrapped(i as nat)
    }

    /// The cache of the indices `0..=max_n`, or of as many of them from 0 on
    /// as make a length the machine can hold.
    pub fn new(max_n: u64) -> (cache: FibonacciCache)
        ensures
            cache@.len() == (if max_n < usize::MAX {
                max_n + 1
            } else {
                usize::MAX as int
            }),
            forall|i: int| 0 <= i < cache@.len() ==> #[trigger] cache@[i] == fib_wrapped(i as nat),
    {
        let length: usize = if max_n < usize::MAX as u64 {
            (max_n + 1) as usize
        } else {
            usize::MAX
        };
        let mut values: Vec<u128> = Vec::new();
        let mut low: u128 = 0;
        let mut high: u128 = 1;
        proof {
            lemma_fib_wrapped_step(0);
        }
        values.push(low);
        while values.len() < length
            invariant
                1 <= values@.len() <= length,
                low == fib_wrapped((values@.len() - 1) as nat),
                high == fib_wrapped(values@.len() as nat),
                forall|i: int|
                    0 <= i < values@.len() ==> #[trigger] values@[i] == fib_wrapped(i as nat),
            decreases length - values@.len(),
        {
            proof {
                lemma_fib_wrapped_step((values@.len() - 1) as nat);
            }
            let next: u128 = low.wrapping_add(high);
            low = high;
            high = next;
            values.push(low);
        }
        FibonacciCache { values }
    }

    /// The number of indices that the cache holds.
    pub fn len(&self) -> (length: usize)
        ensures
            length == self@.len(),
            length >= 1,
    {
        proof {
            use_type_invariant(&*self);
        }
        self.values.len()
    }

    /// The `n`th Fibonacci number modulo `2^128`: read from the cache where
    /// `n` is within it, else found by the doubling identities.
    pub fn get(&self, n: u64) -> (value: u128)
        ensures
            value == fib_wrapped(n as nat),
            n < self@.len() ==> value == self@[n as int],
    {
        proof {
            use_type_invariant(&*self);
        }
        if n < self.values.len() as u64 {
            self.values[n as usize]
        } else {
            fib_doubling(n)
        }
    }
}

} // verus!

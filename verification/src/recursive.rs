//! The recursive strategies: the definition taken at its word, and the same
//! recursion with a table of the values already found.

use vstd::prelude::*;

use crate::domain::{fib_wrapped, lemma_fib_wrapped_step};
use crate::matrix::fib_doubling;

verus! {

/// A growable table from index to value, filled as values are asked for.
///
/// A slot is empty or holds the Fibonacci number of its index modulo `2^128`.
/// The table never shrinks, and a filled slot keeps its value.
pub struct MemoTable {
    slots: Vec<Option<u128>>,
}

/// Every filled slot holds the value of its index.
spec fn slots_hold_fib(slots: Seq<Option<u128>>) -> bool {
    forall|i: int|
        0 <= i < slots.len() ==> (#[trigger] slots[i] matches Some(value) ==> value == fib_wrapped(
            i as nat,
        ))
}

/// `after` has kept every slot of `before` and every value that `before` held.
pub open spec fn extends(before: Seq<Option<u128>>, after: Seq<Option<u128>>) -> bool {
    &&& before.len() <= after.len()
    &&& forall|i: int| 0 <= i < before.len() && before[i] is Some ==> after[i] == #[trigger] before[i]
}

impl View for MemoTable {
    type V = Seq<Option<u128>>;

    closed spec fn view(&self) -> Seq<Option<u128>> {
        self.slots@
    }
}

impl MemoTable {
    #[verifier::type_invariant]
    spec fn well_formed(&self) -> bool {
        slots_hold_fib(self.slots@)
    }

    /// A table without slots.
    pub fn new() -> (table: MemoTable)
        ensures
            table@.len() == 0,
    {
        MemoTable { slots: Vec::new() }
    }

    /// The number of slots, filled or not.
    pub fn len(&self) -> (length: usize)
        ensures
            length == self@.len(),
    {
        self.slots.len()
    }

    /// What the table holds for index `n`: nothing where it has no slot for
    /// `n` or the slot is empty, else the `n`th Fibonacci number modulo `2^128`.
    pub fn get(&self, n: u64) -> (found: Option<u128>)
        ensures
            found == (if n < self@.len() {
                self@[n as int]
            } else {
                None
            }),
            found matches Some(value) ==> value == fib_wrapped(n as nat),
    {
        proof {
            use_type_invariant(&*self);
        }
        if n < self.slots.len() as u64 {
            self.slots[n as usize]
        } else {
            None
        }
    }

    /// The `n`th Fibonacci number modulo `2^128`, from the table where it is
    /// there, else by the recursion, which fills the slots it passes.
    ///
    /// The table grows to `n + 1` slots where it had fewer. Where that is no
    /// length the machine can hold, the table stays as it is and the value
    /// is found by the doubling identities.
    pub fn lookup(&mut self, n: u64) -> (value: u128)
        ensures
            value == fib_wrapped(n as nat),
            extends(old(self)@, final(self)@),
            n < usize::MAX ==> final(self)@.len() == (if old(self)@.len() > n {
                old(self)@.len()
            } else {
                (n + 1) as nat
            }),
            n < usize::MAX ==> final(self)@[n as int] == Some(value),
            n >= usize::MAX ==> final(self)@ == old(self)@,
    {
        proof {
            use_type_invariant(&*self);
        }
        if n >= usize::MAX as u64 {
            return fib_doubling(n);
        }
        let mut slots: Vec<Option<u128>> = Vec::new();
        core::mem::swap(&mut slots, &mut self.slots);
        let ghost before = slots@;
        while slots.len() <= n as usize
            invariant
                n < usize::MAX,
                before.len() <= slots@.len(),
                slots@.len() <= (if before.len() > n {
                    before.len()
                } else {
                    (n + 1) as nat
                }),
                slots@.subrange(0, before.len() as int) == before,
                slots_hold_fib(slots@),
            decreases n + 1 - slots.len(),
        {
            slots.push(None);
        }
        let value: u128 = fill(&mut slots, n as usize);
        self.slots = slots;
        value
    }
}

/// The value for index `n`, by the recursion on the two indices before it,
/// through the slots: a filled slot ends the recursion, and each value found
/// is written to its slot.
fn fill(slots: &mut Vec<Option<u128>>, n: usize) -> (value: u128)
    requires
        n < old(slots)@.len(),
        slots_hold_fib(old(slots)@),
    ensures
        value == fib_wrapped(n as nat),
        final(slots)@.len() == old(slots)@.len(),
        final(slots)@[n as int] == Some(value),
        slots_hold_fib(final(slots)@),
        extends(old(slots)@, final(slots)@),
    decreases n,
{
    if let Some(known) = slots[n] {
        return known;
    }
    let value: u128 = if n < 2 {
        proof {
            lemma_fib_wrapped_step(0);
        }
        n as u128
    } else {
        let ghost start = slots@;
        let high: u128 = fill(slots, n - 1);
        let ghost middle = slots@;
        let low: u128 = fill(slots, n - 2);
        proof {
            lemma_fib_wrapped_step((n - 2) as nat);
            assert(extends(start, slots@)) by {
                assert forall|i: int| 0 <= i < start.len() && start[i] is Some implies slots@[i]
                    == #[trigger] start[i] by {
                    assert(middle[i] == start[i]);
                }
            }
        }
        low.wrapping_add(high)
    };
    slots.set(n, Some(value));
    value
}

/// The `n`th Fibonacci number modulo `2^128`, by the definition itself: two
/// recursive calls for every index above 1. The time doubles with almost
/// every step of `n`.
pub fn fib_recursive(n: u64) -> (result: u128)
    ensures
        result == fib_wrapped(n as nat),
    decreases n,
{
    if n < 2 {
        proof {
            lemma_fib_wrapped_step(0);
        }
        n as u128
    } else {
        proof {
            lemma_fib_wrapped_step((n - 2) as nat);
        }
        fib_recursive(n - 2).wrapping_add(fib_recursive(n - 1))
    }
}

/// The `n`th Fibonacci number modulo `2^128`, by the recursion through a
/// fresh [`MemoTable`], so that no index is worked out twice.
pub fn fib_recursive_memo(n: u64) -> (result: u128)
    ensures
        result == fib_wrapped(n as nat),
{
    let mut table: MemoTable = MemoTable::new();
    table.lookup(n)
}

} // verus!

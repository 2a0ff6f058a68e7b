//! The choice of a strategy: one tag for each, with its name, its cost on
//! paper, and the text that selects it.

use vstd::prelude::*;

use crate::domain::fib_wrapped;
use crate::iterative::{fib_iterative, fib_iterative_branchless};
use crate::matrix::fib_matrix_fast;
use crate::recursive::{fib_recursive, fib_recursive_memo};

verus! {

/// The largest index for which the naive recursion ends in reasonable time.
pub const RECURSIVE_PRACTICAL_LIMIT: u64 = 35;

/// A way to compute Fibonacci numbers.
#[derive(Debug, Clone, Copy, PartialEq, Eq, Structural)]
pub enum FibMethod {
    /// The definition by recursion, in exponential time.
    Recursive,
    /// The recursion with a table of the values already found, in linear time.
    RecursiveMemo,
    /// One pass that keeps the last two values, in linear time.
    Iterative,
    /// The same pass with a step free of branches.
    IterativeBranchless,
    /// Powers of a matrix by repeated squaring, in logarithmic time.
    Matrix,
    /// The closed form in floating point, in constant time and exact only
    /// for small indices.
    Binet,
}

/// The lower-case form of a text as the standard library gives it, Unicode
/// case mapping included.
pub uninterp spec fn lowercase_of(text: Seq<char>) -> Seq<char>;

/// `str::to_lowercase` of the standard library. The contract names the
/// result and claims nothing else of it: only that it is a function of the
/// text.
#[verifier::external_body]
fn to_lowercase(text: &str) -> (lowered: String)
    ensures
        lowered@ == lowercase_of(text@),
{
    text.to_lowercase()
}

/// Whether two texts are the same.
fn same_text(left: &str, right: &str) -> (same: bool)
    ensures
        same == (left@ == right@),
{
    String::from_str(left) == String::from_str(right)
}

impl FibMethod {
    /// Whether the strategy works in the exact domain. The closed form alone
    /// does not: it is evaluated in floating point.
    pub open spec fn is_exact(self) -> bool {
        self != FibMethod::Binet
    }

    /// What `calculate` returns: for an exact strategy the Fibonacci number
    /// modulo `2^128`, the same for all of them, and nothing for the closed form.
    pub open spec fn value(self, n: nat) -> Option<u128> {
        if self.is_exact() {
            Some(fib_wrapped(n))
        } else {
            None
        }
    }

    /// The name of each strategy.
    pub open spec fn name_text(self) -> Seq<char> {
        match self {
            FibMethod::Recursive => "recursive"@,
            FibMethod::RecursiveMemo => "recursive_memo"@,
            FibMethod::Iterative => "iterative"@,
            FibMethod::IterativeBranchless => "iterative_branchless"@,
            FibMethod::Matrix => "matrix"@,
            FibMethod::Binet => "binet"@,
        }
    }

    /// The time each strategy takes, as a class.
    pub open spec fn time_text(self) -> Seq<char> {
        match self {
            FibMethod::Recursive => "O(2^n)"@,
            FibMethod::RecursiveMemo => "O(n)"@,
            FibMethod::Iterative => "O(n)"@,
            FibMethod::IterativeBranchless => "O(n)"@,
            FibMethod::Matrix => "O(log n)"@,
            FibMethod::Binet => "O(1)"@,
        }
    }

    /// The space each strategy takes, as a class.
    pub open spec fn space_text(self) -> Seq<char> {
        match self {
            FibMethod::Recursive => "O(n)"@,
            FibMethod::RecursiveMemo => "O(n)"@,
            FibMethod::Iterative => "O(1)"@,
            FibMethod::IterativeBranchless => "O(1)"@,
            FibMethod::Matrix => "O(1)"@,
            FibMethod::Binet => "O(1)"@,
        }
    }

    /// The strategy that a lower-case name selects, if any. Each strategy
    /// answers to its name, and two of them to a short form as well.
    pub open spec fn from_name(name: Seq<char>) -> Option<FibMethod> {
        if name == "recursive"@ {
            Some(FibMethod::Recursive)
        } else if name == "recursive_memo"@ || name == "memo"@ {
            Some(FibMethod::RecursiveMemo)
        } else if name == "iterative"@ {
            Some(FibMethod::Iterative)
        } else if name == "iterative_branchless"@ || name == "branchless"@ {
            Some(FibMethod::IterativeBranchless)
        } else if name == "matrix"@ {
            Some(FibMethod::Matrix)
        } else if name == "binet"@ {
            Some(FibMethod::Binet)
        } else {
            None
        }
    }

    /// What parsing gives for a text whose lower-case form is `lowered`: the
    /// strategy that `lowered` names, or else a message that ends in the
    /// text as it was given.
    pub open spec fn parsed(lowered: Seq<char>, given: Seq<char>, result: Result<FibMethod, String>) -> bool {
        match FibMethod::from_name(lowered) {
            Some(method) => result == Ok::<FibMethod, String>(method),
            None => result is Err && result->Err_0@ == "Unknown method: "@ + given,
        }
    }

    /// The `n`th Fibonacci number modulo `2^128` by this strategy, and
    /// `None` for the closed form, which has no value in the exact domain
    /// until its floating-point result is rounded.
    pub fn calculate(&self, n: u64) -> (result: Option<u128>)
        ensures
            result == self.value(n as nat),
    {
        match self {
            FibMethod::Recursive => Some(fib_recursive(n)),
            FibMethod::RecursiveMemo => Some(fib_recursive_memo(n)),
            FibMethod::Iterative => Some(fib_iterative(n)),
            FibMethod::IterativeBranchless => Some(fib_iterative_branchless(n)),
            FibMethod::Matrix => Some(fib_matrix_fast(n)),
            FibMethod::Binet => None,
        }
    }

    /// The name of the strategy.
    pub fn name(&self) -> (text: &'static str)
        ensures
            text@ == self.name_text(),
    {
        match self {
            FibMethod::Recursive => "recursive",
            FibMethod::RecursiveMemo => "recursive_memo",
            FibMethod::Iterative => "iterative",
            FibMethod::IterativeBranchless => "iterative_branchless",
            FibMethod::Matrix => "matrix",
            FibMethod::Binet => "binet",
        }
    }

    /// The time the strategy takes, as a class.
    pub fn time_complexity(&self) -> (text: &'static str)
        ensures
            text@ == self.time_text(),
    {
        match self {
            FibMethod::Recursive => "O(2^n)",
            FibMethod::RecursiveMemo => "O(n)",
            FibMethod::Iterative => "O(n)",
            FibMethod::IterativeBranchless => "O(n)",
            FibMethod::Matrix => "O(log n)",
            FibMethod::Binet => "O(1)",
        }
    }

    /// The space the strategy takes, as a class.
    pub fn space_complexity(&self) -> (text: &'static str)
        ensures
            text@ == self.space_text(),
    {
        match self {
            FibMethod::Recursive => "O(n)",
            FibMethod::RecursiveMemo => "O(n)",
            FibMethod::Iterative => "O(1)",
            FibMethod::IterativeBranchless => "O(1)",
            FibMethod::Matrix => "O(1)",
            FibMethod::Binet => "O(1)",
        }
    }

    /// Whether the strategy is too slow to be run for index `n` without a
    /// warning: the naive recursion above index 35.
    pub fn is_impractical(&self, n: u64) -> (slow: bool)
        ensures
            slow == (*self == FibMethod::Recursive && n > RECURSIVE_PRACTICAL_LIMIT),
    {
        match self {
            FibMethod::Recursive => n > RECURSIVE_PRACTICAL_LIMIT,
            _ => false,
        }
    }

    /// The strategy that `lowered` names, where `lowered` is the lower-case
    /// form of `given`. A text that names none gives a message with
    /// `given` in it.
    pub fn from_lowercase(lowered: &str, given: &str) -> (result: Result<FibMethod, String>)
        ensures
            FibMethod::parsed(lowered@, given@, result),
    {
        if same_text(lowered, "recursive") {
            Ok(FibMethod::Recursive)
        } else if same_text(lowered, "recursive_memo") || same_text(lowered, "memo") {
            Ok(FibMethod::RecursiveMemo)
        } else if same_text(lowered, "iterative") {
            Ok(FibMethod::Iterative)
        } else if same_text(lowered, "iterative_branchless") || same_text(lowered, "branchless") {
            Ok(FibMethod::IterativeBranchless)
        } else if same_text(lowered, "matrix") {
            Ok(FibMethod::Matrix)
        } else if same_text(lowered, "binet") {
            Ok(FibMethod::Binet)
        } else {
            Err(String::from_str("Unknown method: ").concat(given))
        }
    }

    /// The strategy that `text` names, whatever the case of its letters.
    pub fn parse(text: &str) -> (result: Result<FibMethod, String>)
        ensures
            FibMethod::parsed(lowercase_of(text@), text@, result),
    {
        let lowered: String = to_lowercase(text);
        FibMethod::from_lowercase(lowered.as_str(), text)
    }
}

/// Each strategy is selected by its own name.
pub proof fn lemma_name_selects_its_method(method: FibMethod)
    ensures
        FibMethod::from_name(method.name_text()) == Some(method),
{
    reveal_strlit("recursive");
    reveal_strlit("recursive_memo");
    reveal_strlit("memo");
    reveal_strlit("iterative");
    reveal_strlit("iterative_branchless");
    reveal_strlit("branchless");
    reveal_strlit("matrix");
    reveal_strlit("binet");
    match method {
        FibMethod::Recursive => {},
        FibMethod::RecursiveMemo => {
            assert("recursive_memo"@.len() != "recursive"@.len());
        },
        FibMethod::Iterative => {
            assert("iterative"@[0] != "recursive"@[0]);
            assert("iterative"@.len() != "recursive_memo"@.len());
            assert("iterative"@.len() != "memo"@.len());
        },
        FibMethod::IterativeBranchless => {
            assert("iterative_branchless"@.len() != "recursive"@.len());
            assert("iterative_branchless"@.len() != "recursive_memo"@.len());
            assert("iterative_branchless"@.len() != "memo"@.len());
            assert("iterative_branchless"@.len() != "iterative"@.len());
        },
        FibMethod::Matrix => {
            assert("matrix"@.len() != "recursive"@.len());
            assert("matrix"@.len() != "recursive_memo"@.len());
            assert("matrix"@.len() != "memo"@.len());
            assert("matrix"@.len() != "iterative"@.len());
            assert("matrix"@.len() != "iterative_branchless"@.len());
            assert("matrix"@.len() != "branchless"@.len());
        },
        FibMethod::Binet => {
            assert("binet"@.len() != "recursive"@.len());
            assert("binet"@.len() != "recursive_memo"@.len());
            assert("binet"@.len() != "memo"@.len());
            assert("binet"@.len() != "iterative"@.len());
            assert("binet"@.len() != "iterative_branchless"@.len());
            assert("binet"@.len() != "branchless"@.len());
            assert("binet"@.len() != "matrix"@.len());
        },
    }
}

impl core::str::FromStr for FibMethod {
    type Err = String;

    fn from_str(text: &str) -> (result: Result<FibMethod, String>)
        ensures
            FibMethod::parsed(lowercase_of(text@), text@, result),
    {
        FibMethod::parse(text)
    }
}

} // verus!

//! Fibonacci numbers in a fixed 128-bit domain, computed by several
//! strategies that are proved to agree, together with allocation accounting.
//!
//! | Strategy | Time | Space |
//! |----------|------|-------|
//! | recursive | O(2^n) | O(n) |
//! | recursive with a table | O(n) | O(n) |
//! | iterative | O(n) | O(1) |
//! | matrix powers, doubling | O(log n) | O(1) |
//!
//! Every exact strategy returns `F(n)` modulo `2^128`: up to index 186 that
//! is `F(n)` itself, and beyond it all of them wrap alike.

pub mod agreement;
pub mod allocator;
pub mod closed_form;
pub mod domain;
pub mod iterative;
pub mod matrix;
pub mod memory;
pub mod method;
pub mod modular;
pub mod recursive;
pub mod report;
pub mod sequence;

pub use iterative::{fib_iterative, fib_iterative_batch, fib_iterative_branchless};
pub use matrix::{fib_doubling, fib_matrix_fast, fib_matrix_modulo};
pub use method::FibMethod;
pub use recursive::{fib_recursive, fib_recursive_memo};

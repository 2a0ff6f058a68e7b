//! Measurements as they are handed to a chart: a run of points, turned into
//! one column for each axis.

use vstd::prelude::*;

verus! {

/// The time that two strategies took for one index, in nanoseconds.
#[derive(Debug, Clone, Copy, PartialEq, Eq, Structural)]
pub struct ComplexityPoint {
    pub n: u64,
    pub iterative_ns: u128,
    pub matrix_ns: u128,
}

/// The points of a comparison, column by column.
#[derive(Debug, PartialEq, Eq)]
pub struct ComplexityColumns {
    pub n_values: Vec<u64>,
    pub iterative_times: Vec<u128>,
    pub matrix_times: Vec<u128>,
}

/// The columns of `points`: each as long as `points`, and each in the order
/// of the points.
pub fn complexity_columns(points: &[ComplexityPoint]) -> (columns: ComplexityColumns)
    ensures
        columns.n_values@ == points@.map_values(|point: ComplexityPoint| point.n),
        columns.iterative_times@ == points@.map_values(|point: ComplexityPoint| point.iterative_ns),
        columns.matrix_times@ == points@.map_values(|point: ComplexityPoint| point.matrix_ns),
{
    let mut n_values: Vec<u64> = Vec::new();
    let mut iterative_times: Vec<u128> = Vec::new();
    let mut matrix_times: Vec<u128> = Vec::new();
    let mut index: usize = 0;
    while index < points.len()
        invariant
            index <= points@.len(),
            n_values@ == points@.take(index as int).map_values(|point: ComplexityPoint| point.n),
            iterative_times@ == points@.take(index as int).map_values(
                |point: ComplexityPoint| point.iterative_ns,
            ),
            matrix_times@ == points@.take(index as int).map_values(
                |point: ComplexityPoint| point.matrix_ns,
            ),
        decreases points@.len() - index,
    {
        let point: ComplexityPoint = points[index];
        n_values.push(point.n);
        iterative_times.push(point.iterative_ns);
        matrix_times.push(point.matrix_ns);
        index = index + 1;
    }
    assert(points@.take(index as int) == points@);
    ComplexityColumns { n_values, iterative_times, matrix_times }
}

} // verus!

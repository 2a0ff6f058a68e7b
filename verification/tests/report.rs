use fib_core::report::{complexity_columns, ComplexityColumns, ComplexityPoint};

#[test]
fn columns_of_nothing() {
    let columns: ComplexityColumns = complexity_columns(&[]);
    assert!(columns.n_values.is_empty());
    assert!(columns.iterative_times.is_empty());
    assert!(columns.matrix_times.is_empty());
}

#[test]
fn columns_keep_the_order_of_the_points() {
    let points: Vec<ComplexityPoint> = vec![
        ComplexityPoint { n: 30, iterative_ns: 45, matrix_ns: 21 },
        ComplexityPoint { n: 10, iterative_ns: 12, matrix_ns: 19 },
        ComplexityPoint { n: 20, iterative_ns: 31, matrix_ns: 20 },
    ];
    let columns: ComplexityColumns = complexity_columns(&points);
    assert_eq!(columns.n_values, vec![30u64, 10, 20]);
    assert_eq!(columns.iterative_times, vec![45u128, 12, 31]);
    assert_eq!(columns.matrix_times, vec![21u128, 19, 20]);
}

use fib_core::iterative::FibonacciCache;
use fib_core::matrix::Matrix2x2;
use fib_core::recursive::MemoTable;
use fib_core::{
    fib_doubling, fib_iterative, fib_iterative_batch, fib_iterative_branchless, fib_matrix_fast,
    fib_recursive, fib_recursive_memo,
};

/// `F(n)` modulo `2^128`, by plain wrapping addition.
fn by_addition(n: u64) -> u128 {
    let mut low: u128 = 0;
    let mut high: u128 = 1;
    for _ in 0..n {
        let next: u128 = low.wrapping_add(high);
        low = high;
        high = next;
    }
    low
}

#[test]
fn exact_strategies_agree_up_to_90() {
    for n in 0..=90u64 {
        let expected: u128 = fib_iterative(n);
        assert_eq!(expected, by_addition(n), "iterative at n={}", n);
        assert_eq!(fib_matrix_fast(n), expected, "matrix at n={}", n);
        assert_eq!(fib_recursive_memo(n), expected, "memo at n={}", n);
        assert_eq!(fib_doubling(n), expected, "doubling at n={}", n);
        assert_eq!(fib_iterative_branchless(n), expected, "branchless at n={}", n);
    }
}

#[test]
fn recursive_matches_iterative_up_to_20() {
    for n in 0..=20u64 {
        assert_eq!(fib_recursive(n), fib_iterative(n), "n={}", n);
    }
}

#[test]
fn matrix_fast_at_zero_and_one() {
    assert_eq!(fib_matrix_fast(0), 0);
    assert_eq!(fib_matrix_fast(1), 1);
}

#[test]
fn matrix_fast_at_100() {
    assert_eq!(fib_matrix_fast(100), 354224848179261915075u128);
}

#[test]
fn known_values() {
    assert_eq!(fib_iterative(2), 1);
    assert_eq!(fib_iterative(20), 6765);
    assert_eq!(fib_doubling(78), 8944394323791464u128);
    assert_eq!(fib_iterative_branchless(90), 2880067194370816120u128);
    assert_eq!(fib_recursive_memo(93), 12200160415121876738u128);
}

#[test]
fn last_exact_index_is_186() {
    let expected: u128 = 332825110087067562321196029789634457848u128;
    assert_eq!(fib_iterative(186), expected);
    assert_eq!(fib_iterative_branchless(186), expected);
    assert_eq!(fib_matrix_fast(186), expected);
    assert_eq!(fib_doubling(186), expected);
    assert_eq!(fib_recursive_memo(186), expected);
}

#[test]
fn index_187_wraps() {
    // F(187) = 538522340430300790495419781092981030533, which is 2^128 more
    // than this.
    let expected: u128 = 198239973509362327032045173661212819077u128;
    assert_eq!(fib_iterative(187), expected);
    assert_eq!(fib_iterative_branchless(187), expected);
    assert_eq!(fib_matrix_fast(187), expected);
    assert_eq!(fib_doubling(187), expected);
    assert_eq!(fib_recursive_memo(187), expected);
}

#[test]
fn strategies_wrap_alike() {
    for n in [188u64, 200, 255, 256, 257, 500, 1000, 4095, 4096, 10_000] {
        let expected: u128 = by_addition(n);
        assert_eq!(fib_iterative(n), expected, "iterative at n={}", n);
        assert_eq!(fib_iterative_branchless(n), expected, "branchless at n={}", n);
        assert_eq!(fib_matrix_fast(n), expected, "matrix at n={}", n);
        assert_eq!(fib_doubling(n), expected, "doubling at n={}", n);
        assert_eq!(fib_recursive_memo(n), expected, "memo at n={}", n);
    }
}

#[test]
fn logarithmic_strategies_take_the_largest_index() {
    assert_eq!(fib_matrix_fast(u64::MAX), fib_doubling(u64::MAX));
    let below: u128 = fib_doubling(u64::MAX - 1);
    let two_below: u128 = fib_doubling(u64::MAX - 2);
    assert_eq!(fib_matrix_fast(u64::MAX), below.wrapping_add(two_below));
}

#[test]
fn batch_keeps_the_order_of_the_indices() {
    let values: Vec<u128> = fib_iterative_batch(&[5, 1, 10]);
    assert_eq!(values, vec![5u128, 1, 55]);
    assert_eq!(values[0], fib_iterative(5));
    assert_eq!(values[1], fib_iterative(1));
    assert_eq!(values[2], fib_iterative(10));
}

#[test]
fn batch_of_nothing_is_empty() {
    let values: Vec<u128> = fib_iterative_batch(&[]);
    assert!(values.is_empty());
}

#[test]
fn batch_with_repeats_rises_and_falls() {
    let indices: [u64; 9] = [0, 0, 7, 7, 200, 3, 186, 187, 1];
    let values: Vec<u128> = fib_iterative_batch(&indices);
    assert_eq!(values.len(), indices.len());
    for (place, index) in indices.iter().enumerate() {
        assert_eq!(values[place], by_addition(*index), "place {}", place);
    }
}

#[test]
fn cache_answers_within_and_beyond_its_range() {
    let cache: FibonacciCache = FibonacciCache::new(100);
    assert_eq!(cache.len(), 101);
    for n in [10u64, 25, 50, 75, 100] {
        assert_eq!(cache.get(n), fib_iterative(n), "n={}", n);
    }
    assert_eq!(cache.get(0), 0);
    assert_eq!(cache.get(101), by_addition(101));
    assert_eq!(cache.get(150), by_addition(150));
    assert_eq!(cache.get(300), by_addition(300));
}

#[test]
fn cache_answers_far_beyond_its_range() {
    let cache: FibonacciCache = FibonacciCache::new(10);
    assert_eq!(cache.get(1_000_000_007), fib_doubling(1_000_000_007));
    assert_eq!(cache.get(u64::MAX), fib_matrix_fast(u64::MAX));
}

#[test]
fn smallest_caches() {
    let only_zero: FibonacciCache = FibonacciCache::new(0);
    assert_eq!(only_zero.len(), 1);
    assert_eq!(only_zero.get(0), 0);
    assert_eq!(only_zero.get(1), 1);
    assert_eq!(only_zero.get(12), 144);
    let zero_and_one: FibonacciCache = FibonacciCache::new(1);
    assert_eq!(zero_and_one.len(), 2);
    assert_eq!(zero_and_one.get(1), 1);
    assert_eq!(zero_and_one.get(2), 1);
    assert_eq!(zero_and_one.get(11), 89);
}

#[test]
fn memo_table_fills_as_it_is_asked() {
    let mut table: MemoTable = MemoTable::new();
    assert_eq!(table.len(), 0);
    assert_eq!(table.get(5), None);
    assert_eq!(table.lookup(10), 55);
    assert_eq!(table.len(), 11);
    for n in 0..=10u64 {
        assert_eq!(table.get(n), Some(fib_iterative(n)), "n={}", n);
    }
    assert_eq!(table.get(11), None);
}

#[test]
fn memo_table_grows_and_keeps_what_it_holds() {
    let mut table: MemoTable = MemoTable::new();
    assert_eq!(table.lookup(30), 832040);
    assert_eq!(table.lookup(4), 3);
    assert_eq!(table.len(), 31);
    assert_eq!(table.lookup(60), 1548008755920u128);
    assert_eq!(table.len(), 61);
    assert_eq!(table.get(30), Some(832040));
    assert_eq!(table.lookup(0), 0);
    assert_eq!(table.lookup(1), 1);
    assert_eq!(table.len(), 61);
}

#[test]
fn memo_table_answers_where_it_cannot_grow() {
    let mut table: MemoTable = MemoTable::new();
    assert_eq!(table.lookup(3), 2);
    assert_eq!(table.lookup(u64::MAX), fib_matrix_fast(u64::MAX));
    assert_eq!(fib_recursive_memo(u64::MAX), fib_doubling(u64::MAX));
    assert_eq!(table.len(), 4);
}

#[test]
fn matrix_product() {
    let identity: Matrix2x2 = Matrix2x2::identity();
    let step: Matrix2x2 = Matrix2x2::step();
    assert_eq!(identity, Matrix2x2 { top: (1, 0), bottom: (0, 1) });
    assert_eq!(step, Matrix2x2 { top: (1, 1), bottom: (1, 0) });
    assert_eq!(identity.multiply(&step), step);
    assert_eq!(step.multiply(&identity), step);
    let square: Matrix2x2 = step.multiply(&step);
    assert_eq!(square, Matrix2x2 { top: (2, 1), bottom: (1, 1) });
    let fifth: Matrix2x2 = square.multiply(&square).multiply(&step);
    assert_eq!(fifth, Matrix2x2 { top: (8, 5), bottom: (5, 3) });
}

#[test]
fn matrix_product_is_not_symmetric_in_general() {
    let left: Matrix2x2 = Matrix2x2 { top: (1, 2), bottom: (3, 4) };
    let right: Matrix2x2 = Matrix2x2 { top: (0, 1), bottom: (1, 0) };
    assert_eq!(left.multiply(&right), Matrix2x2 { top: (2, 1), bottom: (4, 3) });
    assert_eq!(right.multiply(&left), Matrix2x2 { top: (3, 4), bottom: (1, 2) });
}

#[test]
fn matrix_product_wraps() {
    let large: Matrix2x2 = Matrix2x2 { top: (u128::MAX, 0), bottom: (0, u128::MAX) };
    // (2^128 - 1)^2 = 1 modulo 2^128
    assert_eq!(large.multiply(&large), Matrix2x2 { top: (1, 0), bottom: (0, 1) });
}

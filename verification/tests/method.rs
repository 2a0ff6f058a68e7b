use fib_core::method::RECURSIVE_PRACTICAL_LIMIT;
use fib_core::FibMethod;

const ALL: [FibMethod; 6] = [
    FibMethod::Recursive,
    FibMethod::RecursiveMemo,
    FibMethod::Iterative,
    FibMethod::IterativeBranchless,
    FibMethod::Matrix,
    FibMethod::Binet,
];

#[test]
fn case_does_not_matter() {
    assert_eq!("iterative".parse::<FibMethod>(), Ok(FibMethod::Iterative));
    assert_eq!("Iterative".parse::<FibMethod>(), Ok(FibMethod::Iterative));
    assert_eq!("ITERATIVE".parse::<FibMethod>(), Ok(FibMethod::Iterative));
    assert_eq!(FibMethod::parse("MaTrIx"), Ok(FibMethod::Matrix));
}

#[test]
fn short_forms() {
    assert_eq!("branchless".parse::<FibMethod>(), Ok(FibMethod::IterativeBranchless));
    assert_eq!("iterative_branchless".parse::<FibMethod>(), Ok(FibMethod::IterativeBranchless));
    assert_eq!("memo".parse::<FibMethod>(), Ok(FibMethod::RecursiveMemo));
    assert_eq!("recursive_memo".parse::<FibMethod>(), Ok(FibMethod::RecursiveMemo));
    assert_eq!("MEMO".parse::<FibMethod>(), Ok(FibMethod::RecursiveMemo));
}

#[test]
fn every_name_parses_back() {
    for method in ALL {
        assert_eq!(method.name().parse::<FibMethod>(), Ok(method));
        assert_eq!(FibMethod::parse(&method.name().to_uppercase()), Ok(method));
    }
}

#[test]
fn unknown_name_is_refused_with_the_text_as_given() {
    assert_eq!("bogus".parse::<FibMethod>(), Err(String::from("Unknown method: bogus")));
    assert_eq!(FibMethod::parse("BoGuS"), Err(String::from("Unknown method: BoGuS")));
    assert_eq!(FibMethod::parse(""), Err(String::from("Unknown method: ")));
    assert_eq!(FibMethod::parse(" iterative"), Err(String::from("Unknown method:  iterative")));
    assert_eq!(FibMethod::parse("fast_doubling"), Err(String::from("Unknown method: fast_doubling")));
}

#[test]
fn from_lowercase_takes_the_name_as_it_stands() {
    assert_eq!(FibMethod::from_lowercase("binet", "BINET"), Ok(FibMethod::Binet));
    assert_eq!(FibMethod::from_lowercase("recursive", "Recursive"), Ok(FibMethod::Recursive));
    assert_eq!(
        FibMethod::from_lowercase("Iterative", "Iterative"),
        Err(String::from("Unknown method: Iterative"))
    );
    assert_eq!(
        FibMethod::from_lowercase("bogus", "BOGUS"),
        Err(String::from("Unknown method: BOGUS"))
    );
}

#[test]
fn names() {
    let names: Vec<&str> = ALL.iter().map(|method| method.name()).collect();
    assert_eq!(
        names,
        vec!["recursive", "recursive_memo", "iterative", "iterative_branchless", "matrix", "binet"]
    );
}

#[test]
fn time_classes() {
    let classes: Vec<&str> = ALL.iter().map(|method| method.time_complexity()).collect();
    assert_eq!(classes, vec!["O(2^n)", "O(n)", "O(n)", "O(n)", "O(log n)", "O(1)"]);
}

#[test]
fn space_classes() {
    let classes: Vec<&str> = ALL.iter().map(|method| method.space_complexity()).collect();
    assert_eq!(classes, vec!["O(n)", "O(n)", "O(1)", "O(1)", "O(1)", "O(1)"]);
}

#[test]
fn exact_strategies_calculate_the_same() {
    for n in [0u64, 1, 2, 10, 25] {
        for method in ALL {
            if method == FibMethod::Binet {
                assert_eq!(method.calculate(n), None);
            } else {
                assert_eq!(method.calculate(n), FibMethod::Iterative.calculate(n), "n={}", n);
            }
        }
    }
    assert_eq!(FibMethod::Matrix.calculate(100), Some(354224848179261915075u128));
    assert_eq!(FibMethod::RecursiveMemo.calculate(90), Some(2880067194370816120u128));
    assert_eq!(FibMethod::IterativeBranchless.calculate(20), Some(6765));
    assert_eq!(FibMethod::Recursive.calculate(20), Some(6765));
}

#[test]
fn closed_form_has_no_exact_value() {
    assert_eq!(FibMethod::Binet.calculate(0), None);
    assert_eq!(FibMethod::Binet.calculate(10), None);
    assert_eq!(FibMethod::Binet.calculate(u64::MAX), None);
}

#[test]
fn only_the_naive_recursion_is_impractical() {
    assert_eq!(RECURSIVE_PRACTICAL_LIMIT, 35);
    assert!(!FibMethod::Recursive.is_impractical(35));
    assert!(FibMethod::Recursive.is_impractical(36));
    assert!(!FibMethod::Recursive.is_impractical(0));
    for method in ALL {
        if method != FibMethod::Recursive {
            assert!(!method.is_impractical(u64::MAX));
        }
    }
}

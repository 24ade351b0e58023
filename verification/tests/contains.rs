use mcgen::Contains;

#[test]
fn contains_accepts_inner_values() {
    assert!((0i64, 10i64).contains(5));
    assert!((-4i64, -1i64).contains(-2));
}

#[test]
fn contains_includes_both_ends() {
    assert!((0i64, 10i64).contains(0));
    assert!((0i64, 10i64).contains(10));
}

#[test]
fn contains_rejects_outer_values() {
    assert!(!(0i64, 10i64).contains(12));
    assert!(!(0i64, 10i64).contains(-1));
}

#[test]
fn contains_works_through_references() {
    let inner: i64 = 5;
    let outer: i64 = 11;
    assert!((0i64, 10i64).contains(&inner));
    assert!(!(0i64, 10i64).contains(&outer));
}

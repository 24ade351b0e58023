use mcgen::function::{is_sorted, Function};

#[test]
fn function_new_holds_one_point() {
    let f: Function<i64, i64> = Function::new(3, 7);
    assert_eq!(f.xdata().as_slice(), &[3]);
    assert_eq!(f.ydata().as_slice(), &[7]);
    assert_eq!(*f.min(), 7);
    assert_eq!(*f.max(), 7);
    assert_eq!(f.domain(), (3, 3));
    assert_eq!(f.codomain(), (7, 7));
}

#[test]
fn function_with_capacity_holds_one_point() {
    let f: Function<i64, i64> = Function::with_capacity(16, -2, 5);
    assert_eq!(f.xdata().as_slice(), &[-2]);
    assert_eq!(f.ydata().as_slice(), &[5]);
    assert_eq!(f.domain(), (-2, -2));
}

#[test]
fn function_push_extends_to_the_right() {
    let mut f: Function<i64, i64> = Function::new(0, 10);
    f.push(5, -3);
    f.push(9, 22);
    assert_eq!(f.xdata().as_slice(), &[0, 5, 9]);
    assert_eq!(f.ydata().as_slice(), &[10, -3, 22]);
    assert_eq!(f.domain(), (0, 9));
}

#[test]
fn function_push_tracks_min_and_max() {
    let mut f: Function<i64, i64> = Function::new(0, 10);
    f.push(1, 30);
    f.push(2, -7);
    f.push(3, 12);
    assert_eq!(*f.min(), -7);
    assert_eq!(*f.max(), 30);
    assert_eq!(f.codomain(), (-7, 30));
}

#[test]
fn function_call_returns_exact_hits() {
    let mut f: Function<i64, i64> = Function::new(0, 10);
    f.push(5, 50);
    f.push(10, 0);
    assert_eq!(f.call(0), 10);
    assert_eq!(f.call(5), 50);
    assert_eq!(f.call(10), 0);
}

#[test]
fn function_call_interpolates_between_points() {
    let mut f: Function<i64, i64> = Function::new(0, 0);
    f.push(10, 100);
    // slope 10, so the function is y = 10 x on the segment.
    assert_eq!(f.call(5), 50);
    assert_eq!(f.call(1), 10);
    assert_eq!(f.call(9), 90);
}

#[test]
fn function_call_interpolates_downward_segments() {
    let mut f: Function<i64, i64> = Function::new(0, 100);
    f.push(4, 20);
    // slope (20 - 100) / 4 = -20.
    assert_eq!(f.call(1), 80);
    assert_eq!(f.call(3), 40);
}

#[test]
fn function_interpolate_matches_two_point_formula() {
    let r: i64 = Function::interpolate((0i64, 0i64), (10, 100), 7);
    assert_eq!(r, 70);
}

#[test]
fn function_scale_x_multiplies_the_x_axis() {
    let mut f: Function<i64, i64> = Function::new(1, 5);
    f.push(2, 6);
    let g = f.scale_x(10);
    assert_eq!(g.xdata().as_slice(), &[10, 20]);
    assert_eq!(g.ydata().as_slice(), &[5, 6]);
}

#[test]
fn function_scale_y_multiplies_and_recomputes_extrema() {
    let mut f: Function<i64, i64> = Function::new(0, 1);
    f.push(1, -4);
    f.push(2, 3);
    let g = f.scale_y(-2);
    assert_eq!(g.ydata().as_slice(), &[-2, 8, -6]);
    assert_eq!(*g.min(), -6);
    assert_eq!(*g.max(), 8);
}

#[test]
fn function_scale_scales_both_axes() {
    let mut f: Function<i64, i64> = Function::new(1, 2);
    f.push(3, 4);
    let g = f.scale(2, 3);
    assert_eq!(g.xdata().as_slice(), &[2, 6]);
    assert_eq!(g.ydata().as_slice(), &[6, 12]);
}

#[test]
fn is_sorted_accepts_increasing_data() {
    assert!(is_sorted::<i64>(&vec![]));
    assert!(is_sorted(&vec![5i64]));
    assert!(is_sorted(&vec![1i64, 1, 2, 9]));
}

#[test]
fn is_sorted_rejects_decreasing_data() {
    assert!(!is_sorted(&vec![3i64, 2]));
    assert!(!is_sorted(&vec![1i64, 5, 4, 9]));
}

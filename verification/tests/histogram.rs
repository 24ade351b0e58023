use mcgen::Histogram;

#[test]
fn histogram_new_builds_equal_bins() {
    let h = Histogram::new(4, 0, 8);
    assert_eq!(h.num_bins(), 4);
    assert_eq!(h.num_bin_edges(), 5);
    assert_eq!(h.bin_width(), 2);
    assert_eq!(h.bin_low_edges(), vec![0, 2, 4, 6]);
    assert_eq!(h.bin_high_edges(), vec![2, 4, 6, 8]);
    assert_eq!(h.bin_centers(), vec![1, 3, 5, 7]);
    assert_eq!(h.bin_contents(), &vec![0, 0, 0, 0]);
    assert_eq!(h.range(), &(0, 8));
}

#[test]
fn histogram_from_edges_accepts_uneven_bins() {
    let h: Histogram<i64> = Histogram::from_edges(vec![-10, 0, 100]);
    assert_eq!(h.num_bins(), 2);
    assert_eq!(h.range(), &(-10, 100));
    assert_eq!(h.find_bin(-3), Some(0));
    assert_eq!(h.find_bin(57), Some(1));
}

#[test]
fn histogram_find_bin_picks_the_first_containing_bin() {
    let h = Histogram::new(4, 0, 8);
    assert_eq!(h.find_bin(0), Some(0));
    assert_eq!(h.find_bin(1), Some(0));
    // A value on an inner edge belongs to the earlier bin.
    assert_eq!(h.find_bin(2), Some(0));
    assert_eq!(h.find_bin(3), Some(1));
    assert_eq!(h.find_bin(7), Some(3));
    assert_eq!(h.find_bin(8), Some(3));
}

#[test]
fn histogram_find_bin_rejects_out_of_range_values() {
    let h = Histogram::new(4, 0, 8);
    assert_eq!(h.find_bin(-1), None);
    assert_eq!(h.find_bin(9), None);
}

#[test]
fn histogram_fill_counts_hits() {
    let mut h = Histogram::new(4, 0, 8);
    h.fill(1);
    h.fill(1);
    h.fill(5);
    h.fill(100);
    assert_eq!(h.bin_contents(), &vec![2, 0, 1, 0]);
}

#[test]
fn histogram_fill_by_adds_weights() {
    let mut h = Histogram::new(2, 0, 10);
    h.fill_by(3, 7);
    h.fill_by(9, 2);
    h.fill_by(-1, 100);
    assert_eq!(h.bin_contents(), &vec![7, 2]);
}

#[test]
fn histogram_fill_by_saturates_the_counter() {
    let mut h = Histogram::new(1, 0, 10);
    h.fill_by(5, u32::MAX);
    h.fill_by(5, 10);
    assert_eq!(h.bin_contents(), &vec![u32::MAX]);
}

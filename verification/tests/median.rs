//! Median reduction and color assignment.

use compbench::bfunc::Bfunc;
use compbench::graph::{color_for, palette_exhausted, COLOR_WHEEL_LEN};

#[test]
fn median_even_count_averages_middle_pair() {
    let (lo, hi) = Bfunc::median(&vec![1, 2, 3, 4]);
    assert_eq!((lo, hi), (2, 3));
    assert_eq!((lo + hi) as f64 / 2.0, 2.5);
}

#[test]
fn median_odd_count_is_true_middle_element() {
    // The zero-based middle of [1,2,3,4,5] is index 2 (value 3), not 4.
    let (lo, hi) = Bfunc::median(&vec![1, 2, 3, 4, 5]);
    assert_eq!((lo, hi), (3, 3));
}

#[test]
fn median_sorts_its_input() {
    let (lo, hi) = Bfunc::median(&vec![5, 1, 4, 2, 3]);
    assert_eq!((lo, hi), (3, 3));
    let (lo, hi) = Bfunc::median(&vec![40, 10, 30, 20]);
    assert_eq!((lo, hi), (20, 30));
}

#[test]
fn median_single_sample() {
    assert_eq!(Bfunc::median(&vec![7]), (7, 7));
}

#[test]
fn median_equal_samples() {
    assert_eq!(Bfunc::median(&vec![9, 9, 9]), (9, 9));
}

#[test]
fn colors_follow_palette_then_fall_back() {
    assert_eq!(COLOR_WHEEL_LEN, 20);
    assert_eq!(color_for(0), (0x00, 0xff, 0xff));
    assert_eq!(color_for(1), (0x65, 0x37, 0x00));
    assert_eq!(color_for(19), (0xfa, 0x80, 0x72));
    // Past the palette every codec shares the documented fallback color.
    assert_eq!(color_for(20), (0xff, 0x00, 0x00));
    assert_eq!(color_for(100), (0xff, 0x00, 0x00));
}

#[test]
fn palette_exhaustion_is_flagged_not_fatal() {
    assert!(!palette_exhausted(20));
    assert!(palette_exhausted(21));
}

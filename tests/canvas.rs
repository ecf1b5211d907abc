use bpg::canvas::adjust;
use bpg::ratio::Ratio;

#[test]
fn test_adjust() {
    assert_eq!(adjust((0, 0), 10, Ratio::new(1, 10)), (1, 10));
    assert_eq!(adjust((0, 0), 10, Ratio::new(10, 1)), (100, 10));
    assert_eq!(adjust((20, 30), 10, Ratio::new(3, 4)), (30, 40));
    assert_eq!(adjust((30, 20), 10, Ratio::new(1, 1)), (40, 40));
}

#[test]
fn adjust_truncates_derived_dimension() {
    // 110 * 9 / 16 = 61.875
    assert_eq!(adjust((100, 50), 10, Ratio::new(16, 9)), (110, 61));
    // 60 * 2 / 3 = 40, height kept when equal
    assert_eq!(adjust((50, 50), 10, Ratio::new(2, 3)), (40, 60));
}

#[test]
fn adjust_large_values_do_not_overflow_midway() {
    let w = u32::MAX - 10;
    assert_eq!(adjust((w, 1), 10, Ratio::new(2, 1)), (u32::MAX, u32::MAX / 2));
}

use climeta::engine::search::equal_range_with;
use climeta::engine::search::lower_bound_with;

#[test]
fn test_lower_bound_with() {
    let slice = &[0, 0, 1, 2, 4, 4, 4, 8, 16, 16];
    assert_eq!(lower_bound_with(0, 10, |idx| slice[idx], 0), 0);
    assert_eq!(lower_bound_with(0, 10, |idx| slice[idx], 1), 2);
    assert_eq!(lower_bound_with(1, 10, |idx| slice[idx], 1), 2);
    assert_eq!(lower_bound_with(3, 10, |idx| slice[idx], 1), 3);
    assert_eq!(lower_bound_with(0, 10, |idx| slice[idx], 16), 8);
    assert_eq!(lower_bound_with(0, 10, |idx| slice[idx], 17), 10);
    assert_eq!(lower_bound_with(7, 7, |idx| slice[idx], 0), 7); // empty input range
}

#[test]
fn test_equal_range_with() {
    let slice = &[0, 0, 1, 2, 4, 4, 4, 8, 16, 16];
    assert_eq!(equal_range_with(0, 10, |idx| slice[idx], 0), (0, 2));
    assert_eq!(equal_range_with(0, 10, |idx| slice[idx], 1), (2, 3));
    assert_eq!(equal_range_with(3, 10, |idx| slice[idx], 0), (3, 3)); // empty output range
    assert_eq!(equal_range_with(0, 10, |idx| slice[idx], 3), (4, 4));
    assert_eq!(equal_range_with(0, 10, |idx| slice[idx], 4), (4, 7));
    assert_eq!(equal_range_with(0, 10, |idx| slice[idx], 16), (8, 10));
    assert_eq!(equal_range_with(0, 8, |idx| slice[idx], 16), (8, 8));
    assert_eq!(equal_range_with(7, 7, |idx| slice[idx], 0), (7, 7)); // empty input range
}

use gpu_image::primitive::should_resize;
use gpu_image::util::Size;

fn size(width: u32, height: u32) -> Size {
    Size::new(width, height)
}

#[test]
fn same_size_keeps_resources() {
    assert!(!should_resize(size(1000, 1000), size(1000, 1000)));
}

#[test]
fn growth_rebuilds() {
    assert!(should_resize(size(1200, 1000), size(1000, 1000)));
    assert!(should_resize(size(1000, 1001), size(1000, 1000)));
    assert!(should_resize(size(1001, 10), size(1000, 1000)));
}

#[test]
fn shrink_by_more_than_half_rebuilds() {
    assert!(should_resize(size(400, 1000), size(1000, 1000)));
    assert!(should_resize(size(1000, 499), size(1000, 1000)));
    assert!(should_resize(size(0, 0), size(1000, 1000)));
}

#[test]
fn shrink_by_half_or_less_keeps_resources() {
    assert!(!should_resize(size(600, 1000), size(1000, 1000)));
    assert!(!should_resize(size(500, 500), size(1000, 1000)));
    assert!(!should_resize(size(999, 999), size(1000, 1000)));
}

#[test]
fn odd_sizes_use_the_exact_half() {
    // Half of 1001 is 500.5: a shrink by 500 keeps, a shrink by 501 rebuilds.
    assert!(!should_resize(size(501, 1001), size(1001, 1001)));
    assert!(should_resize(size(500, 1001), size(1001, 1001)));
    assert!(!should_resize(size(1, 1), size(1, 1)));
    assert!(should_resize(size(0, 1), size(1, 1)));
}

#[test]
fn empty_current_size_rebuilds_on_anything_larger() {
    assert!(!should_resize(size(0, 0), size(0, 0)));
    assert!(should_resize(size(1, 0), size(0, 0)));
}

#[test]
fn largest_sizes_do_not_overflow() {
    let max = u32::MAX;
    assert!(!should_resize(size(max, max), size(max, max)));
    assert!(should_resize(size(0, max), size(max, max)));
    assert!(!should_resize(size(max / 2 + 1, max), size(max, max)));
    assert!(should_resize(size(max / 2, max), size(max, max)));
    assert!(should_resize(size(40_000_000, 10), size(16_777_217, 10)));
}

#[test]
fn policy_agrees_with_its_statement_on_a_grid() {
    for current in 0..60u32 {
        for new in 0..80u32 {
            let expected = new > current || 2 * (current - new.min(current)) > current;
            assert_eq!(should_resize(size(new, 7), size(current, 7)), expected);
            assert_eq!(should_resize(size(7, new), size(7, current)), expected);
        }
    }
}

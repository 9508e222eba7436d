use imgproxy::resolver::{get_ratio, get_target_size, is_negative_or_zero, InvalidSizeError, Size};

#[test]
fn width_drives_wide_original() {
    // 1000x500 into a 100x100 box: the width scale (0.1) is smaller than the
    // height scale (0.2), so width drives and the height is derived.
    let r = get_target_size(1000, 500, &Size { width: Some(100), height: Some(100) });
    assert_eq!(r.unwrap(), (100, 50));
}

#[test]
fn height_drives_tall_original() {
    // 500x1000 into a 100x100 box: the height scale is smaller, so height
    // drives and the width is derived.
    let r = get_target_size(500, 1000, &Size { width: Some(100), height: Some(100) });
    assert_eq!(r.unwrap(), (50, 100));
}

#[test]
fn unconstrained_box_returns_original() {
    let r = get_target_size(1234, 567, &Size { width: None, height: None });
    assert_eq!(r.unwrap(), (1234, 567));
    let r = get_target_size(1, 1, &Size { width: None, height: None });
    assert_eq!(r.unwrap(), (1, 1));
}

#[test]
fn zero_width_rejected() {
    let r = get_target_size(800, 600, &Size { width: Some(0), height: Some(100) });
    assert!(r.is_err());
    let r = get_target_size(800, 600, &Size { width: Some(0), height: None });
    assert!(r.is_err());
}

#[test]
fn zero_height_rejected() {
    let r = get_target_size(800, 600, &Size { width: Some(100), height: Some(0) });
    assert!(r.is_err());
    let r = get_target_size(800, 600, &Size { width: None, height: Some(0) });
    assert!(r.is_err());
}

#[test]
fn containing_box_returns_original() {
    // A box at least as large as the original on both axes never upscales.
    let r = get_target_size(800, 600, &Size { width: Some(800), height: Some(600) });
    assert_eq!(r.unwrap(), (800, 600));
    let r = get_target_size(800, 600, &Size { width: Some(1000), height: Some(700) });
    assert_eq!(r.unwrap(), (800, 600));
    let r = get_target_size(800, 600, &Size { width: Some(800), height: Some(700) });
    assert_eq!(r.unwrap(), (800, 600));
    let r = get_target_size(800, 600, &Size { width: Some(1000), height: Some(600) });
    assert_eq!(r.unwrap(), (800, 600));
}

#[test]
fn width_only_scales_height() {
    let r = get_target_size(1000, 500, &Size { width: Some(100), height: None });
    assert_eq!(r.unwrap(), (100, 50));
    // A width-only box larger than the original leaves it unchanged.
    let r = get_target_size(1000, 500, &Size { width: Some(2000), height: None });
    assert_eq!(r.unwrap(), (1000, 500));
}

#[test]
fn height_only_scales_width() {
    let r = get_target_size(1000, 500, &Size { width: None, height: Some(100) });
    assert_eq!(r.unwrap(), (200, 100));
    // A height-only box larger than the original leaves it unchanged.
    let r = get_target_size(1000, 500, &Size { width: None, height: Some(600) });
    assert_eq!(r.unwrap(), (1000, 500));
}

#[test]
fn derived_dimension_truncates_toward_zero() {
    // 999x100 into width 500: the exact derived height is 50.05, truncated
    // to 50, never rounded to nearest.
    let r = get_target_size(999, 100, &Size { width: Some(500), height: None });
    assert_eq!(r.unwrap(), (500, 50));
    // 100x999 into height 500, symmetrically.
    let r = get_target_size(100, 999, &Size { width: None, height: Some(500) });
    assert_eq!(r.unwrap(), (50, 500));
}

#[test]
fn one_pixel_box_on_largest_original() {
    let m = u32::MAX;
    let r = get_target_size(m, m, &Size { width: Some(1), height: Some(1) });
    assert_eq!(r.unwrap(), (1, 1));
}

#[test]
fn get_ratio_exact_values() {
    // 333 * 50 / 100 = 166.5, truncated to 166.
    assert_eq!(get_ratio(50, 100, 333), 166);
    // The largest operands stay within range.
    assert_eq!(get_ratio(u32::MAX, u32::MAX, u32::MAX), u32::MAX);
    assert_eq!(get_ratio(1, u32::MAX, u32::MAX), 1);
}

#[test]
fn negative_or_zero_detection() {
    assert!(is_negative_or_zero(&Size { width: Some(0), height: None }));
    assert!(is_negative_or_zero(&Size { width: None, height: Some(0) }));
    assert!(is_negative_or_zero(&Size { width: Some(0), height: Some(0) }));
    assert!(!is_negative_or_zero(&Size { width: None, height: None }));
    assert!(!is_negative_or_zero(&Size { width: Some(1), height: Some(1) }));
}

#[test]
fn invalid_size_error_keeps_the_box() {
    let size = Size { width: Some(0), height: Some(7) };
    let err = InvalidSizeError::new(&size);
    assert_eq!(err.size.width, Some(0));
    assert_eq!(err.size.height, Some(7));
}

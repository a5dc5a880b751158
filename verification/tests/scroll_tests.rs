use isletmap::scroll::{apply_scroll, scroll_delta, ScrollUnit, LINE_HEIGHT};

#[test]
fn line_units_scale_by_line_height() {
    assert_eq!(LINE_HEIGHT, 20);
    let dy = scroll_delta(&ScrollUnit::Line, 2);
    assert_eq!(dy, 40);
    assert_eq!(apply_scroll(100, dy), 60);
}

#[test]
fn pixel_units_pass_through() {
    let dy = scroll_delta(&ScrollUnit::Pixel, 7);
    assert_eq!(dy, 7);
    assert_eq!(apply_scroll(100, dy), 93);
}

#[test]
fn negative_scroll_moves_the_other_way() {
    let dy = scroll_delta(&ScrollUnit::Line, -3);
    assert_eq!(dy, -60);
    assert_eq!(apply_scroll(100, dy), 160);
}

#[test]
fn zero_scroll_changes_nothing() {
    assert_eq!(scroll_delta(&ScrollUnit::Line, 0), 0);
    assert_eq!(apply_scroll(42, 0), 42);
}

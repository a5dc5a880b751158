//! Conversion of mouse-wheel events into list scroll-offset changes.
//!
//! Scroll amounts are carried in whole pixels. A "line" unit event moves the
//! list by `LINE_HEIGHT` pixels per line; a "pixel" unit event moves it by the
//! event amount directly. The offset decreases when the delta is positive.

use vstd::prelude::*;

verus! {

/// Height of one list row in pixels: how far a single "line" scroll unit moves.
pub const LINE_HEIGHT: i64 = 20;

/// The unit a wheel event reports its amount in.
pub enum ScrollUnit {
    Line,
    Pixel,
}

/// How many pixels a wheel event moves the list: `LINE_HEIGHT` per line for
/// line-unit events, the raw amount for pixel-unit events.
pub fn scroll_delta(unit: &ScrollUnit, amount: i64) -> (dy: i64)
    requires
        unit is Line ==> i64::MIN <= LINE_HEIGHT * amount <= i64::MAX,
    ensures
        unit is Line ==> dy == LINE_HEIGHT * amount,
        unit is Pixel ==> dy == amount,
{
    match unit {
        ScrollUnit::Line => LINE_HEIGHT * amount,
        ScrollUnit::Pixel => amount,
    }
}

/// New scroll offset after a wheel delta: the offset moves opposite to the
/// delta's sign.
pub fn apply_scroll(offset: i64, dy: i64) -> (r: i64)
    requires
        i64::MIN <= offset - dy <= i64::MAX,
    ensures
        r == offset - dy,
{
    offset - dy
}

} // verus!

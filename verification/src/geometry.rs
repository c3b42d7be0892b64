//! Physical layout of the rendered symbol.
//!
//! Every length is carried in fixed-point millimeters: one unit is
//! 1/10000 mm. All protocol constants have at most four decimal places,
//! so this representation is exact and the emitted coordinates reproduce
//! the reference rendering byte for byte. The constants are protocol
//! values matched to a reference rendering; they must not be re-derived.

use vstd::prelude::*;

verus! {

/// Module width (X-dimension): 0.33 mm.
pub const X_DIM: i64 = 3300;

/// Font size of the human-readable digits: 3.175 mm.
pub const FONT_SIZE: i64 = 31750;

/// Baseline of the main human-readable digits: 0.0847 mm.
pub const TEXT_Y: i64 = 847;

/// Bottom edge of guard bars and add-on bars: 1.093 mm.
pub const GUARD_BOTTOM: i64 = 10930;

/// Bottom edge of ordinary data bars: 2.743 mm.
pub const BAR_BOTTOM: i64 = 27430;

/// Left quiet zone: 3.63 mm.
pub const QUIET_LEFT: i64 = 36300;

/// Right quiet zone: 2.31 mm.
pub const QUIET_RIGHT: i64 = 23100;

/// Gap between the add-on bar top and the add-on text baseline: 0.4147 mm.
pub const ADDON_TEXT_GAP: i64 = 4147;

/// Width of the 95-module EAN-13 symbol: 95 x 0.33 mm.
pub const EAN13_WIDTH: i64 = 95 * 3300;

/// Width of the add-on section when present: a 7-module gap, 47 modules
/// of bars, and 2 mm of trailing margin.
pub const ADDON_SECTION_WIDTH: i64 = 7 * 3300 + 47 * 3300 + 20000;

/// Millimeter-to-point scale factor 2.83464567, as a numerator over 10^8.
pub const SCALE_NUM: i64 = 283464567;

/// Largest accepted bar height / add-on offset magnitude (10000 mm).
pub const MAX_DIM: i64 = 100000000;

/// Top edge of every bar of the main symbol: the guard bars run the full
/// caller-supplied height from the guard bottom up.
pub open spec fn bar_top_y(bar_height: int) -> int {
    GUARD_BOTTOM + bar_height
}

/// A module index of the 95-module EAN-13 sequence that belongs to a
/// guard pattern: the first 3, the center 5 at offset 45, the last 3.
pub open spec fn ean13_is_guard(i: int) -> bool {
    i < 3 || (45 <= i && i <= 49) || i >= 92
}

/// Left edge of EAN-13 module `i`.
pub open spec fn ean13_bar_x(i: int) -> int {
    QUIET_LEFT + i * X_DIM
}

/// Bottom edge of a bar at EAN-13 module `i`: guard bars reach lower
/// than data bars.
pub open spec fn ean13_bar_bottom(i: int) -> int {
    if ean13_is_guard(i) {
        GUARD_BOTTOM as int
    } else {
        BAR_BOTTOM as int
    }
}

/// X position of the leading digit, left of the start guard.
pub open spec fn first_digit_text_x() -> int {
    QUIET_LEFT - FONT_SIZE * 9 / 10
}

/// X position of left-group digit `i` (0-based), centered over its
/// 7-module block starting at module 3 + 7i.
pub open spec fn left_text_x(i: int) -> int {
    QUIET_LEFT + (3 + 7 * i) * X_DIM + X_DIM * 7 / 2 - FONT_SIZE * 3 / 10
}

/// X position of right-group digit `i` (0-based), centered over its
/// 7-module block starting at module 50 + 7i.
pub open spec fn right_text_x(i: int) -> int {
    QUIET_LEFT + (50 + 7 * i) * X_DIM + X_DIM * 7 / 2 - FONT_SIZE * 3 / 10
}

/// Left edge of the add-on symbol: after the main symbol and a 7-module gap.
pub open spec fn addon_x_start() -> int {
    QUIET_LEFT + EAN13_WIDTH + 7 * X_DIM
}

/// Left edge of add-on module `i`.
pub open spec fn addon_bar_x(i: int) -> int {
    addon_x_start() + i * X_DIM
}

/// X position of add-on digit `i`, centered over its block of 7 modules
/// at offset 4 + 9i.
pub open spec fn addon_text_x(i: int) -> int {
    addon_x_start() + (4 + 9 * i) * X_DIM + X_DIM * 7 / 2 - FONT_SIZE * 3 / 10
}

/// Baseline of the add-on digits: the text top aligns with the main
/// bar top, shifted by the caller-supplied offset.
pub open spec fn addon_text_y(bar_height: int, addon_offset: int) -> int {
    bar_top_y(bar_height) - FONT_SIZE + addon_offset
}

/// Top edge of the add-on bars, just under the add-on text baseline.
pub open spec fn addon_bar_top_y(bar_height: int, addon_offset: int) -> int {
    addon_text_y(bar_height, addon_offset) - ADDON_TEXT_GAP
}

/// Total document width: quiet zones, main symbol, and the add-on
/// section when present.
pub open spec fn total_width(has_addon: bool) -> int {
    QUIET_LEFT + EAN13_WIDTH + QUIET_RIGHT + if has_addon {
        ADDON_SECTION_WIDTH as int
    } else {
        0
    }
}

/// Total document height: half a millimeter above the bar top.
pub open spec fn total_height(bar_height: int) -> int {
    bar_top_y(bar_height) + 5000
}

/// A length in points, rounded up to the next integer: the fixed-point
/// millimeter value times 2.83464567, exactly, then taken ceiling.
pub open spec fn pt_ceil(mm4: int) -> int {
    (mm4 * SCALE_NUM + 999999999999) / 1000000000000
}

/// A length in points at five decimal places, scaled by 10^5: the exact
/// product rounded half-up at the fifth decimal.
pub open spec fn pt_hi5(mm4: int) -> int {
    (mm4 * SCALE_NUM + 5000000) / 10000000
}

/// Law: for every bar height, the bounding box height in points is the
/// exact product of the total height (guard bottom + bar height + 0.5 mm)
/// with the scale factor 2.83464567, rounded up to the next integer.
pub proof fn lemma_bounding_box_height(bar_height: int)
    ensures
        pt_ceil(total_height(bar_height)) == ((GUARD_BOTTOM + bar_height + 5000) * SCALE_NUM
            + 999999999999) / 1000000000000,
{
}

/// Integer point measure of `mm4` for the bounding box, rounded up.
pub fn points_ceil(mm4: i64) -> (r: i64)
    requires
        0 <= mm4 <= 3 * MAX_DIM,
    ensures
        r == pt_ceil(mm4 as int),
        0 <= r,
{
    (mm4 * SCALE_NUM + 999999999999) / 1000000000000
}

/// Point measure of `mm4` scaled by 10^5, for the high-resolution
/// bounding box, rounded half-up at the fifth decimal place.
pub fn points_hi5(mm4: i64) -> (r: i64)
    requires
        0 <= mm4 <= 3 * MAX_DIM,
    ensures
        r == pt_hi5(mm4 as int),
        0 <= r,
{
    (mm4 * SCALE_NUM + 5000000) / 10000000
}

} // verus!

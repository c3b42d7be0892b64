//! Serialization of the barcode artwork as an EPS document.
//!
//! The document is a line-oriented PostScript text: a header with an
//! integer and a high-resolution bounding box, a comment block of
//! recognized settings, a fixed preamble of operator abbreviations, the
//! drawing primitives (filled bar rectangles and digit placements), and
//! a terminating page directive. Every number is printed at a fixed
//! number of decimal places so the output is byte-for-byte reproducible.

use vstd::prelude::*;

use crate::barcode::{
    digit_val, ean13_modules, ean5_modules, encode_ean13, encode_ean5, parse_digits,
    valid_digit_string,
};
use crate::geometry::{
    addon_bar_top_y, addon_bar_x, addon_text_x, addon_text_y, bar_top_y, ean13_bar_bottom,
    ean13_bar_x, first_digit_text_x, left_text_x, points_ceil, points_hi5, pt_ceil,
    pt_hi5, right_text_x, total_height, total_width, ADDON_SECTION_WIDTH, ADDON_TEXT_GAP,
    BAR_BOTTOM, EAN13_WIDTH, FONT_SIZE, GUARD_BOTTOM, MAX_DIM, QUIET_LEFT, QUIET_RIGHT, TEXT_Y,
    X_DIM,
};
use crate::numfmt::{
    dec_digits, digit_chars, fixed_chars, lemma_pow10_values, push_fixed, push_uint,
};

verus! {

// ---------------------------------------------------------------------------
// Drawing primitives
// ---------------------------------------------------------------------------

/// The drawing commands of one filled bar: a rectangle from
/// `(x, y_bot)` to `(x + w, y_top)`.
pub open spec fn rect_chars(x: int, w: int, y_bot: int, y_top: int) -> Seq<char> {
    "n "@ + fixed_chars(x, 4) + " "@ + fixed_chars(y_bot, 4) + " m "@ + fixed_chars(x, 4) + " "@
        + fixed_chars(y_top, 4) + " l "@ + fixed_chars(x + w, 4) + " "@ + fixed_chars(y_top, 4)
        + " l "@ + fixed_chars(x + w, 4) + " "@ + fixed_chars(y_bot, 4) + " l f c\n"@
}

/// The drawing commands of one human-readable digit `d` at `(x, y)`.
pub open spec fn text_chars(x: int, y: int, d: int) -> Seq<char> {
    "n "@ + fixed_chars(x, 4) + " "@ + fixed_chars(y, 4) + " m ("@ + digit_chars(d) + ") s c\n"@
}

/// Appends the rectangle-fill commands of one bar.
fn emit_rect(out: &mut String, x: i64, w: i64, y_bot: i64, y_top: i64)
    requires
        i64::MIN < x,
        i64::MIN < y_bot,
        i64::MIN < y_top,
        i64::MIN < x + w <= i64::MAX,
    ensures
        final(out)@ == old(out)@ + rect_chars(x as int, w as int, y_bot as int, y_top as int),
{
    proof {
        lemma_pow10_values();
    }
    let xr = x + w;
    out.append("n ");
    push_fixed(out, x, 10000, 4);
    out.append(" ");
    push_fixed(out, y_bot, 10000, 4);
    out.append(" m ");
    push_fixed(out, x, 10000, 4);
    out.append(" ");
    push_fixed(out, y_top, 10000, 4);
    out.append(" l ");
    push_fixed(out, xr, 10000, 4);
    out.append(" ");
    push_fixed(out, y_top, 10000, 4);
    out.append(" l ");
    push_fixed(out, xr, 10000, 4);
    out.append(" ");
    push_fixed(out, y_bot, 10000, 4);
    out.append(" l f c\n");
    proof {
        assert(out@ =~= old(out)@ + rect_chars(
            x as int,
            w as int,
            y_bot as int,
            y_top as int,
        ));
    }
}

/// Appends the text-show commands of one digit.
fn emit_text(out: &mut String, x: i64, y: i64, d: u8)
    requires
        i64::MIN < x,
        i64::MIN < y,
        d < 10,
    ensures
        final(out)@ == old(out)@ + text_chars(x as int, y as int, d as int),
{
    proof {
        lemma_pow10_values();
    }
    out.append("n ");
    push_fixed(out, x, 10000, 4);
    out.append(" ");
    push_fixed(out, y, 10000, 4);
    out.append(" m (");
    out.append(crate::numfmt::digit_str(d));
    out.append(") s c\n");
    proof {
        assert(out@ =~= old(out)@ + text_chars(x as int, y as int, d as int));
    }
}

// ---------------------------------------------------------------------------
// Fixed document sections
// ---------------------------------------------------------------------------

/// The EPS header: format declaration, integer bounding box,
/// high-resolution bounding box, creator tag.
pub open spec fn header_chars(bbw: nat, bbh: nat, w5: int, h5: int) -> Seq<char> {
    "%!PS-Adobe-2.0 EPSF-1.2\n%%BoundingBox: 0 0 "@ + dec_digits(bbw) + " "@ + dec_digits(bbh)
        + "\n%%HiResBoundingBox: 0 0 "@ + fixed_chars(w5, 5) + " "@ + fixed_chars(h5, 5)
        + "\n%%Creator: ISBN Barcode Maker\n%%EndComments\n\n"@
}

/// Appends the EPS header. `bbw`/`bbh` are the integer bounding box in
/// points; `w5`/`h5` the high-resolution box scaled by 10^5.
fn emit_header(out: &mut String, bbw: i64, bbh: i64, w5: i64, h5: i64)
    requires
        0 <= bbw,
        0 <= bbh,
        0 <= w5,
        0 <= h5,
    ensures
        final(out)@ == old(out)@ + header_chars(bbw as nat, bbh as nat, w5 as int, h5 as int),
{
    proof {
        lemma_pow10_values();
    }
    out.append("%!PS-Adobe-2.0 EPSF-1.2\n%%BoundingBox: 0 0 ");
    push_uint(out, bbw as u64);
    out.append(" ");
    push_uint(out, bbh as u64);
    out.append("\n%%HiResBoundingBox: 0 0 ");
    push_fixed(out, w5, 100000, 5);
    out.append(" ");
    push_fixed(out, h5, 100000, 5);
    out.append("\n%%Creator: ISBN Barcode Maker\n%%EndComments\n\n");
    proof {
        assert(out@ =~= old(out)@ + header_chars(
            bbw as nat,
            bbh as nat,
            w5 as int,
            h5 as int,
        ));
    }
}

/// The settings comment block: the recognized configuration, echoed at
/// fixed decimal precision.
pub open spec fn settings_chars(
    isbn: Seq<char>,
    addon: Seq<char>,
    dpi: nat,
    bar_height: int,
    addon_offset: int,
) -> Seq<char> {
    "%SETTINGS\n% Color: CMYK\n% Background: 0.000 0.000 0.000 0.000\n% Foreground: 0.000 0.000 0.000 1.000\n% Human Readable: Yes\n% Text Font: Arial\n% Output DPI: "@
        + dec_digits(dpi) + "\n% Symbology: ISBN\n% Value: "@ + isbn + (if addon.len() > 0 {
        "\n% Add-On: "@ + addon
    } else {
        Seq::empty()
    }) + "\n% X-Dimension: 0.33000000 mm\n% Bar Height: "@ + fixed_chars(bar_height * 10000, 8)
        + " mm\n% Add-On Offset: "@ + fixed_chars(addon_offset, 4) + " mm\n\n"@
}

/// Appends the settings comment block.
fn emit_settings(out: &mut String, isbn: &str, addon: &str, dpi: u32, bar_height: i64,
    addon_offset: i64)
    requires
        0 <= bar_height <= MAX_DIM,
        -MAX_DIM <= addon_offset <= MAX_DIM,
    ensures
        final(out)@ == old(out)@ + settings_chars(
            isbn@,
            addon@,
            dpi as nat,
            bar_height as int,
            addon_offset as int,
        ),
{
    proof {
        lemma_pow10_values();
    }
    out.append(
        "%SETTINGS\n% Color: CMYK\n% Background: 0.000 0.000 0.000 0.000\n% Foreground: 0.000 0.000 0.000 1.000\n% Human Readable: Yes\n% Text Font: Arial\n% Output DPI: ",
    );
    push_uint(out, dpi as u64);
    out.append("\n% Symbology: ISBN\n% Value: ");
    out.append(isbn);
    if addon.unicode_len() > 0 {
        out.append("\n% Add-On: ");
        out.append(addon);
    }
    out.append("\n% X-Dimension: 0.33000000 mm\n% Bar Height: ");
    push_fixed(out, bar_height * 10000, 100000000, 8);
    out.append(" mm\n% Add-On Offset: ");
    push_fixed(out, addon_offset, 10000, 4);
    out.append(" mm\n\n");
    proof {
        assert(out@ =~= old(out)@ + settings_chars(
            isbn@,
            addon@,
            dpi as nat,
            bar_height as int,
            addon_offset as int,
        ));
    }
}

/// The fixed preamble: operator abbreviations, the millimeter-to-point
/// scale command, the foreground color, and the font selection.
pub open spec fn preamble_chars() -> Seq<char> {
    "/bd {bind def} bind def\n/c {closepath} bd\n/f {fill} bd\n/l {lineto} bd\n/m {moveto} bd\n/n {newpath} bd\n/r {rotate} bd\n/sc {scale} bd\n/s {show} bd\n/t {translate} bd\n\n2.83464567 2.83464567 sc\n0.000 0.000 0.000 1.000 setcmykcolor\n/ArialMT findfont 3.1750000 scalefont setfont\n"@
}

/// Appends the fixed preamble.
fn emit_preamble(out: &mut String)
    ensures
        final(out)@ == old(out)@ + preamble_chars(),
{
    out.append(
        "/bd {bind def} bind def\n/c {closepath} bd\n/f {fill} bd\n/l {lineto} bd\n/m {moveto} bd\n/n {newpath} bd\n/r {rotate} bd\n/sc {scale} bd\n/s {show} bd\n/t {translate} bd\n\n2.83464567 2.83464567 sc\n0.000 0.000 0.000 1.000 setcmykcolor\n/ArialMT findfont 3.1750000 scalefont setfont\n",
    );
}

// ---------------------------------------------------------------------------
// Bars and digit rows
// ---------------------------------------------------------------------------

/// The bar rectangles of the first `n` modules of the EAN-13 symbol:
/// one-valued modules produce a bar, guard modules reach down to the
/// guard bottom, data modules to the data-bar bottom.
pub open spec fn ean13_bars_chars(m: Seq<u8>, bar_top: int, n: int) -> Seq<char>
    decreases n,
{
    if n <= 0 {
        Seq::empty()
    } else {
        ean13_bars_chars(m, bar_top, n - 1) + (if m[n - 1] == 1 {
            rect_chars(ean13_bar_x(n - 1), X_DIM as int, ean13_bar_bottom(n - 1), bar_top)
        } else {
            Seq::empty()
        })
    }
}

/// Appends one bar rectangle per one-valued module of the main symbol.
fn emit_ean13_bars(out: &mut String, m: &Vec<u8>, bar_top: i64)
    requires
        m@.len() == 95,
        0 <= bar_top <= 2 * MAX_DIM,
    ensures
        final(out)@ == old(out)@ + ean13_bars_chars(m@, bar_top as int, 95),
{
    let mut i: usize = 0;
    while i < 95
        invariant
            i <= 95,
            m@.len() == 95,
            0 <= bar_top <= 2 * MAX_DIM,
            out@ == old(out)@ + ean13_bars_chars(m@, bar_top as int, i as int),
        decreases 95 - i,
    {
        if m[i] == 1 {
            let x = QUIET_LEFT + (i as i64) * X_DIM;
            let y_bot = if i < 3 || (45 <= i && i <= 49) || i >= 92 {
                GUARD_BOTTOM
            } else {
                BAR_BOTTOM
            };
            emit_rect(out, x, X_DIM, y_bot, bar_top);
        }
        proof {
            assert(out@ =~= old(out)@ + ean13_bars_chars(m@, bar_top as int, i + 1));
        }
        i += 1;
    }
}

/// The first `n` left-group digit placements: digit positions 1..=6,
/// centered over their module blocks.
pub open spec fn left_texts_chars(s: Seq<char>, n: int) -> Seq<char>
    decreases n,
{
    if n <= 0 {
        Seq::empty()
    } else {
        left_texts_chars(s, n - 1) + text_chars(left_text_x(n - 1), TEXT_Y as int, digit_val(s[n]))
    }
}

/// Appends the six left-group digit placements.
fn emit_left_texts(out: &mut String, digits: &Vec<u8>, Ghost(s): Ghost<Seq<char>>)
    requires
        digits@.len() == 13,
        s.len() == 13,
        forall|j: int| 0 <= j < 13 ==> #[trigger] digits@[j] == digit_val(s[j]) && digits@[j] < 10,
    ensures
        final(out)@ == old(out)@ + left_texts_chars(s, 6),
{
    let mut i: usize = 0;
    while i < 6
        invariant
            i <= 6,
            digits@.len() == 13,
            s.len() == 13,
            forall|j: int| 0 <= j < 13 ==> #[trigger] digits@[j] == digit_val(s[j]) && digits@[j]
                < 10,
            out@ == old(out)@ + left_texts_chars(s, i as int),
        decreases 6 - i,
    {
        let x = QUIET_LEFT + (3 + 7 * (i as i64)) * X_DIM + X_DIM * 7 / 2 - FONT_SIZE * 3 / 10;
        emit_text(out, x, TEXT_Y, digits[i + 1]);
        proof {
            assert(out@ =~= old(out)@ + left_texts_chars(s, i + 1));
        }
        i += 1;
    }
}

/// The first `n` right-group digit placements: digit positions 7..=12.
pub open spec fn right_texts_chars(s: Seq<char>, n: int) -> Seq<char>
    decreases n,
{
    if n <= 0 {
        Seq::empty()
    } else {
        right_texts_chars(s, n - 1) + text_chars(
            right_text_x(n - 1),
            TEXT_Y as int,
            digit_val(s[n + 6]),
        )
    }
}

/// Appends the six right-group digit placements.
fn emit_right_texts(out: &mut String, digits: &Vec<u8>, Ghost(s): Ghost<Seq<char>>)
    requires
        digits@.len() == 13,
        s.len() == 13,
        forall|j: int| 0 <= j < 13 ==> #[trigger] digits@[j] == digit_val(s[j]) && digits@[j] < 10,
    ensures
        final(out)@ == old(out)@ + right_texts_chars(s, 6),
{
    let mut i: usize = 0;
    while i < 6
        invariant
            i <= 6,
            digits@.len() == 13,
            s.len() == 13,
            forall|j: int| 0 <= j < 13 ==> #[trigger] digits@[j] == digit_val(s[j]) && digits@[j]
                < 10,
            out@ == old(out)@ + right_texts_chars(s, i as int),
        decreases 6 - i,
    {
        let x = QUIET_LEFT + (50 + 7 * (i as i64)) * X_DIM + X_DIM * 7 / 2 - FONT_SIZE * 3 / 10;
        emit_text(out, x, TEXT_Y, digits[i + 7]);
        proof {
            assert(out@ =~= old(out)@ + right_texts_chars(s, i + 1));
        }
        i += 1;
    }
}

/// The bar rectangles of the first `n` modules of the add-on symbol,
/// all running from the guard bottom up to `y_top`.
pub open spec fn addon_bars_chars(m: Seq<u8>, y_top: int, n: int) -> Seq<char>
    decreases n,
{
    if n <= 0 {
        Seq::empty()
    } else {
        addon_bars_chars(m, y_top, n - 1) + (if m[n - 1] == 1 {
            rect_chars(addon_bar_x(n - 1), X_DIM as int, GUARD_BOTTOM as int, y_top)
        } else {
            Seq::empty()
        })
    }
}

/// Appends one bar rectangle per one-valued module of the add-on symbol.
fn emit_addon_bars(out: &mut String, m: &Vec<u8>, y_top: i64)
    requires
        m@.len() == 47,
        -2 * MAX_DIM <= y_top <= 2 * MAX_DIM,
    ensures
        final(out)@ == old(out)@ + addon_bars_chars(m@, y_top as int, 47),
{
    let ax0 = QUIET_LEFT + EAN13_WIDTH + 7 * X_DIM;
    let mut i: usize = 0;
    while i < 47
        invariant
            i <= 47,
            m@.len() == 47,
            -2 * MAX_DIM <= y_top <= 2 * MAX_DIM,
            ax0 == QUIET_LEFT + EAN13_WIDTH + 7 * X_DIM,
            out@ == old(out)@ + addon_bars_chars(m@, y_top as int, i as int),
        decreases 47 - i,
    {
        if m[i] == 1 {
            let x = ax0 + (i as i64) * X_DIM;
            emit_rect(out, x, X_DIM, GUARD_BOTTOM, y_top);
        }
        proof {
            assert(out@ =~= old(out)@ + addon_bars_chars(m@, y_top as int, i + 1));
        }
        i += 1;
    }
}

/// The first `n` add-on digit placements, at baseline `y`.
pub open spec fn addon_texts_chars(a: Seq<char>, y: int, n: int) -> Seq<char>
    decreases n,
{
    if n <= 0 {
        Seq::empty()
    } else {
        addon_texts_chars(a, y, n - 1) + text_chars(addon_text_x(n - 1), y, digit_val(a[n - 1]))
    }
}

/// Appends the five add-on digit placements.
fn emit_addon_texts(out: &mut String, digits: &Vec<u8>, y: i64, Ghost(a): Ghost<Seq<char>>)
    requires
        digits@.len() == 5,
        a.len() == 5,
        i64::MIN < y,
        forall|j: int| 0 <= j < 5 ==> #[trigger] digits@[j] == digit_val(a[j]) && digits@[j] < 10,
    ensures
        final(out)@ == old(out)@ + addon_texts_chars(a, y as int, 5),
{
    let ax0 = QUIET_LEFT + EAN13_WIDTH + 7 * X_DIM;
    let mut i: usize = 0;
    while i < 5
        invariant
            i <= 5,
            digits@.len() == 5,
            a.len() == 5,
            i64::MIN < y,
            ax0 == QUIET_LEFT + EAN13_WIDTH + 7 * X_DIM,
            forall|j: int| 0 <= j < 5 ==> #[trigger] digits@[j] == digit_val(a[j]) && digits@[j]
                < 10,
            out@ == old(out)@ + addon_texts_chars(a, y as int, i as int),
        decreases 5 - i,
    {
        let x = ax0 + (4 + 9 * (i as i64)) * X_DIM + X_DIM * 7 / 2 - FONT_SIZE * 3 / 10;
        emit_text(out, x, y, digits[i]);
        proof {
            assert(out@ =~= old(out)@ + addon_texts_chars(a, y as int, i + 1));
        }
        i += 1;
    }
}

// ---------------------------------------------------------------------------
// Whole document
// ---------------------------------------------------------------------------

/// The complete EPS document for identifier `isbn` (13 digits), add-on
/// `addon` (empty or 5 digits), bar height and add-on offset in
/// fixed-point millimeters, and the echoed output resolution `dpi`.
pub open spec fn document_chars(
    isbn: Seq<char>,
    addon: Seq<char>,
    bar_height: int,
    dpi: nat,
    addon_offset: int,
) -> Seq<char> {
    let has_addon = addon.len() > 0;
    let w = total_width(has_addon);
    let h = total_height(bar_height);
    let bt = bar_top_y(bar_height);
    header_chars(pt_ceil(w) as nat, pt_ceil(h) as nat, pt_hi5(w), pt_hi5(h)) + settings_chars(
        isbn,
        addon,
        dpi,
        bar_height,
        addon_offset,
    ) + preamble_chars() + text_chars(first_digit_text_x(), TEXT_Y as int, digit_val(isbn[0]))
        + ean13_bars_chars(ean13_modules(isbn), bt, 95) + left_texts_chars(isbn, 6)
        + right_texts_chars(isbn, 6) + (if has_addon {
        addon_bars_chars(ean5_modules(addon), addon_bar_top_y(bar_height, addon_offset), 47)
            + addon_texts_chars(addon, addon_text_y(bar_height, addon_offset), 5)
    } else {
        Seq::empty()
    }) + "showpage\n"@
}

/// Generates the EPS document for an EAN-13 symbol with an optional
/// EAN-5 add-on. `bar_height` (full guard-bar height) and
/// `addon_offset` (vertical shift of the add-on block) are in
/// fixed-point millimeters, 1/10000 mm per unit; `dpi` is echoed in the
/// settings block only. Returns `None` when `isbn` is not exactly 13
/// decimal digits, or when `addon` is neither empty nor exactly 5
/// decimal digits. The checksum is not checked here.
#[verifier::rlimit(100)]
pub fn generate_eps(isbn: &str, addon: &str, bar_height: i64, dpi: u32, addon_offset: i64) -> (r:
    Option<String>)
    requires
        0 <= bar_height <= MAX_DIM,
        -MAX_DIM <= addon_offset <= MAX_DIM,
    ensures
        r is Some <==> (valid_digit_string(isbn@, 13) && (addon@.len() == 0 || valid_digit_string(
            addon@,
            5,
        ))),
        r matches Some(doc) ==> doc@ == document_chars(
            isbn@,
            addon@,
            bar_height as int,
            dpi as nat,
            addon_offset as int,
        ),
{
    let ean13 = match encode_ean13(isbn) {
        Some(m) => m,
        None => {
            return None;
        },
    };
    let has_addon = addon.unicode_len() > 0;
    let addon_modules: Option<Vec<u8>> = if has_addon {
        match encode_ean5(addon) {
            Some(m) => Some(m),
            None => {
                return None;
            },
        }
    } else {
        None
    };
    let digits = parse_digits(isbn, 13).unwrap();

    let bt = GUARD_BOTTOM + bar_height;
    let w = QUIET_LEFT + EAN13_WIDTH + QUIET_RIGHT + if has_addon {
        ADDON_SECTION_WIDTH
    } else {
        0
    };
    let h = bt + 5000;

    let mut out = String::new();
    emit_header(&mut out, points_ceil(w), points_ceil(h), points_hi5(w), points_hi5(h));
    emit_settings(&mut out, isbn, addon, dpi, bar_height, addon_offset);
    emit_preamble(&mut out);
    let first_x = QUIET_LEFT - FONT_SIZE * 9 / 10;
    emit_text(&mut out, first_x, TEXT_Y, digits[0]);
    emit_ean13_bars(&mut out, &ean13, bt);
    emit_left_texts(&mut out, &digits, Ghost(isbn@));
    emit_right_texts(&mut out, &digits, Ghost(isbn@));
    if has_addon {
        let m5 = addon_modules.unwrap();
        let addon_digits = parse_digits(addon, 5).unwrap();
        let aty = bt - FONT_SIZE + addon_offset;
        let abt = aty - ADDON_TEXT_GAP;
        emit_addon_bars(&mut out, &m5, abt);
        emit_addon_texts(&mut out, &addon_digits, aty, Ghost(addon@));
    }
    out.append("showpage\n");
    proof {
        assert(out@ =~= document_chars(
            isbn@,
            addon@,
            bar_height as int,
            dpi as nat,
            addon_offset as int,
        ));
    }
    Some(out)
}

} // verus!

//! Byte-for-byte comparison of the fixed-point renderer against a
//! floating-point oracle.
//!
//! The library computes every coordinate in exact fixed-point
//! millimeters; downstream consumers expect the same bytes that
//! floating-point arithmetic with `format!` precision would produce.
//! This oracle rebuilds the whole document with `f64` and compares.

use isbn_barcode::barcode::{encode_ean13, encode_ean5};
use isbn_barcode::{generate_barcode, BarcodeRequest};

fn oracle_eps(isbn: &str, addon: &str, bar_height_mm: f64, dpi: u32, addon_offset_mm: f64)
    -> String {
    let ean13_modules = encode_ean13(isbn).unwrap();
    let ean5_modules = if !addon.is_empty() { encode_ean5(addon) } else { None };

    let x_dim: f64 = 0.33;
    let scale = 2.83464567;
    let font_size: f64 = 3.175;
    let text_y: f64 = 0.0847;
    let guard_bottom: f64 = 1.093;
    let bar_bottom: f64 = 2.743;
    let bar_top: f64 = guard_bottom + bar_height_mm;
    let quiet_zone_left: f64 = 3.63;

    let addon_gap_modules: f64 = 7.0;
    let addon_bar_bottom: f64 = guard_bottom;
    let addon_text_baseline_gap: f64 = 0.4147;
    let addon_text_y: f64 = bar_top - font_size + addon_offset_mm;
    let addon_bar_top: f64 = addon_text_y - addon_text_baseline_gap;

    let ean13_width_mm = ean13_modules.len() as f64 * x_dim;
    let quiet_zone_right: f64 = 2.31;
    let addon_section_width = if let Some(m) = &ean5_modules {
        addon_gap_modules * x_dim + m.len() as f64 * x_dim + 2.0
    } else {
        0.0
    };
    let total_width_mm = quiet_zone_left + ean13_width_mm + quiet_zone_right + addon_section_width;
    let total_height_mm = bar_top + 0.5;

    let bb_width = (total_width_mm * scale).ceil() as i32;
    let bb_height = (total_height_mm * scale).ceil() as i32;

    let mut eps = String::new();
    eps.push_str("%!PS-Adobe-2.0 EPSF-1.2\n");
    eps.push_str(&format!("%%BoundingBox: 0 0 {} {}\n", bb_width, bb_height));
    eps.push_str(&format!(
        "%%HiResBoundingBox: 0 0 {:.5} {:.5}\n",
        total_width_mm * scale,
        total_height_mm * scale
    ));
    eps.push_str("%%Creator: ISBN Barcode Maker\n");
    eps.push_str("%%EndComments\n\n");

    eps.push_str("%SETTINGS\n");
    eps.push_str("% Color: CMYK\n");
    eps.push_str("% Background: 0.000 0.000 0.000 0.000\n");
    eps.push_str("% Foreground: 0.000 0.000 0.000 1.000\n");
    eps.push_str("% Human Readable: Yes\n");
    eps.push_str("% Text Font: Arial\n");
    eps.push_str(&format!("% Output DPI: {}\n", dpi));
    eps.push_str("% Symbology: ISBN\n");
    eps.push_str(&format!("% Value: {}\n", isbn));
    if !addon.is_empty() {
        eps.push_str(&format!("% Add-On: {}\n", addon));
    }
    eps.push_str(&format!("% X-Dimension: {:.8} mm\n", x_dim));
    eps.push_str(&format!("% Bar Height: {:.8} mm\n", bar_height_mm));
    eps.push_str(&format!("% Add-On Offset: {:.4} mm\n", addon_offset_mm));
    eps.push('\n');

    eps.push_str("/bd {bind def} bind def\n");
    eps.push_str("/c {closepath} bd\n");
    eps.push_str("/f {fill} bd\n");
    eps.push_str("/l {lineto} bd\n");
    eps.push_str("/m {moveto} bd\n");
    eps.push_str("/n {newpath} bd\n");
    eps.push_str("/r {rotate} bd\n");
    eps.push_str("/sc {scale} bd\n");
    eps.push_str("/s {show} bd\n");
    eps.push_str("/t {translate} bd\n\n");

    eps.push_str(&format!("{:.8} {:.8} sc\n", scale, scale));
    eps.push_str("0.000 0.000 0.000 1.000 setcmykcolor\n");
    eps.push_str(&format!("/ArialMT findfont {:.7} scalefont setfont\n", font_size));

    let draw_bar = |eps: &mut String, x: f64, w: f64, y_bot: f64, y_top: f64| {
        eps.push_str(&format!(
            "n {:.4} {:.4} m {:.4} {:.4} l {:.4} {:.4} l {:.4} {:.4} l f c\n",
            x, y_bot, x, y_top, x + w, y_top, x + w, y_bot
        ));
    };
    let draw_text = |eps: &mut String, x: f64, y: f64, text: &str| {
        eps.push_str(&format!("n {:.4} {:.4} m ({}) s c\n", x, y, text));
    };

    let digits: Vec<u32> = isbn.chars().map(|c| c.to_digit(10).unwrap()).collect();

    let mut x = quiet_zone_left;
    let module_count = ean13_modules.len();
    let first_digit_x = quiet_zone_left - font_size * 0.9;
    draw_text(&mut eps, first_digit_x, text_y, &digits[0].to_string());

    for (i, &module) in ean13_modules.iter().enumerate() {
        if module == 1 {
            let is_guard = i < 3 || (45..=49).contains(&i) || i >= module_count - 3;
            let y_bot = if is_guard { guard_bottom } else { bar_bottom };
            draw_bar(&mut eps, x, x_dim, y_bot, bar_top);
        }
        x += x_dim;
    }

    for i in 0..6 {
        let digit = digits[i + 1];
        let module_start = 3 + i * 7;
        let digit_center_x = quiet_zone_left + (module_start as f64 + 3.5) * x_dim;
        draw_text(&mut eps, digit_center_x - font_size * 0.3, text_y, &digit.to_string());
    }
    for i in 0..6 {
        let digit = digits[i + 7];
        let module_start = 50 + i * 7;
        let digit_center_x = quiet_zone_left + (module_start as f64 + 3.5) * x_dim;
        draw_text(&mut eps, digit_center_x - font_size * 0.3, text_y, &digit.to_string());
    }

    if let Some(addon_modules) = &ean5_modules {
        let addon_digits: Vec<u32> = addon.chars().map(|c| c.to_digit(10).unwrap()).collect();
        let addon_x_start = quiet_zone_left + ean13_width_mm + addon_gap_modules * x_dim;
        let mut ax = addon_x_start;
        for &module in addon_modules.iter() {
            if module == 1 {
                draw_bar(&mut eps, ax, x_dim, addon_bar_bottom, addon_bar_top);
            }
            ax += x_dim;
        }
        for i in 0..5 {
            let module_offset = 4.0 + i as f64 * 9.0 + 3.5;
            let text_x = addon_x_start + module_offset * x_dim - font_size * 0.3;
            draw_text(&mut eps, text_x, addon_text_y, &addon_digits[i].to_string());
        }
    }

    eps.push_str("showpage\n");
    eps
}

fn library_eps(isbn: &str, addon: &str, bar_height_mm4: i64, dpi: u32, addon_offset_mm4: i64)
    -> String {
    let res = generate_barcode(BarcodeRequest {
        isbn: isbn.to_string(),
        addon: addon.to_string(),
        bar_height_mm4,
        dpi,
        addon_offset_mm4,
    });
    assert!(res.success, "{}", res.message);
    res.eps_content.unwrap()
}

fn compare(isbn: &str, addon: &str, bar_height_mm4: i64, dpi: u32, addon_offset_mm4: i64) {
    let lib = library_eps(isbn, addon, bar_height_mm4, dpi, addon_offset_mm4);
    let oracle = oracle_eps(
        isbn,
        addon,
        bar_height_mm4 as f64 / 10_000.0,
        dpi,
        addon_offset_mm4 as f64 / 10_000.0,
    );
    for (a, b) in lib.lines().zip(oracle.lines()) {
        assert_eq!(a, b);
    }
    assert_eq!(lib, oracle);
}

#[test]
fn matches_float_oracle_without_addon() {
    compare("9780306406157", "", 150_000, 300, 0);
}

#[test]
fn matches_float_oracle_with_addon() {
    compare("9780306406157", "12345", 150_000, 300, 0);
}

#[test]
fn matches_float_oracle_other_heights_and_offsets() {
    compare("5901234123457", "52495", 100_000, 600, 25_000);
    compare("5901234123457", "00000", 73_500, 72, -12_345);
    compare("0123456789012", "", 5_000, 1200, 0);
}

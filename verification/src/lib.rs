//! EAN-13 / EAN-5 barcode encoding and EPS artwork generation.
//!
//! The crate turns a 13-digit product identifier (and an optional 5-digit
//! supplementary code) into a module sequence and then into a vector
//! drawing expressed as an EPS document. All geometry is computed in
//! fixed-point millimeters (units of 1/10000 mm), which keeps every
//! coordinate and every emitted decimal exact.

use vstd::prelude::*;

pub mod barcode;
pub mod eps;
pub mod geometry;
pub mod numfmt;

use crate::barcode::{is_digit_string, valid_digit_string, validate_isbn13, weighted_sum};
use crate::eps::{document_chars, generate_eps};
use crate::geometry::MAX_DIM;

verus! {

/// A barcode generation request. Lengths are in fixed-point
/// millimeters, 1/10000 mm per unit.
pub struct BarcodeRequest {
    /// The 13-digit identifier to encode.
    pub isbn: String,
    /// The supplementary code: empty, or exactly 5 digits.
    pub addon: String,
    /// Full guard-bar height, in 1/10000 mm.
    pub bar_height_mm4: i64,
    /// Output resolution, echoed in the document metadata only.
    pub dpi: u32,
    /// Vertical shift of the add-on block, in 1/10000 mm.
    pub addon_offset_mm4: i64,
}

/// The outcome of a barcode generation or save request: a success flag,
/// a user-facing message, and the document text when one was produced.
pub struct BarcodeResult {
    pub success: bool,
    pub message: String,
    pub eps_content: Option<String>,
    pub file_path: Option<String>,
}

/// The request's dimensions lie in the supported range (at most 10 m,
/// so that all point arithmetic stays exact).
pub open spec fn dims_in_range(bar_height: int, addon_offset: int) -> bool {
    0 <= bar_height <= MAX_DIM && -MAX_DIM <= addon_offset <= MAX_DIM
}

/// A request that must produce a document: well-formed identifier and
/// add-on, valid checksum, and dimensions in range.
pub open spec fn request_ok(req: BarcodeRequest) -> bool {
    valid_digit_string(req.isbn@, 13) && weighted_sum(req.isbn@) % 10 == 0 && (req.addon@.len()
        == 0 || valid_digit_string(req.addon@, 5)) && dims_in_range(
        req.bar_height_mm4 as int,
        req.addon_offset_mm4 as int,
    )
}

/// Handles one generation request: validates the identifier format, the
/// checksum and the supplementary code, then renders the document.
/// Failures are reported in the result's message; no document is
/// returned on failure.
pub fn generate_barcode(request: BarcodeRequest) -> (r: BarcodeResult)
    ensures
        r.success <==> request_ok(request),
        r.success <==> r.eps_content is Some,
        r.eps_content matches Some(doc) ==> doc@ == document_chars(
            request.isbn@,
            request.addon@,
            request.bar_height_mm4 as int,
            request.dpi as nat,
            request.addon_offset_mm4 as int,
        ),
        r.success ==> r.message@ == "바코드가 생성되었습니다."@,
        !valid_digit_string(request.isbn@, 13) ==> r.message@ == "ISBN은 13자리 숫자여야 합니다."@,
        valid_digit_string(request.isbn@, 13) && weighted_sum(request.isbn@) % 10 != 0
            ==> r.message@ == "ISBN 체크디짓이 올바르지 않습니다."@,
        valid_digit_string(request.isbn@, 13) && weighted_sum(request.isbn@) % 10 == 0 && !(
        request.addon@.len() == 0 || valid_digit_string(request.addon@, 5)) ==> r.message@
            == "분류번호는 5자리 숫자여야 합니다."@,
        valid_digit_string(request.isbn@, 13) && weighted_sum(request.isbn@) % 10 == 0 && (
        request.addon@.len() == 0 || valid_digit_string(request.addon@, 5)) && !dims_in_range(
            request.bar_height_mm4 as int,
            request.addon_offset_mm4 as int,
        ) ==> r.message@ == "바코드 생성에 실패했습니다."@,
        r.file_path is None,
{
    // Identifier format: exactly 13 decimal digits.
    if !is_digit_string(&request.isbn, 13) {
        return BarcodeResult {
            success: false,
            message: String::from_str("ISBN은 13자리 숫자여야 합니다."),
            eps_content: None,
            file_path: None,
        };
    }
    // Checksum of the identifier.
    if !validate_isbn13(request.isbn.as_str()) {
        return BarcodeResult {
            success: false,
            message: String::from_str("ISBN 체크디짓이 올바르지 않습니다."),
            eps_content: None,
            file_path: None,
        };
    }
    // Supplementary code format: empty, or exactly 5 decimal digits.
    let addon_len = request.addon.as_str().unicode_len();
    if addon_len != 0 && !is_digit_string(&request.addon, 5) {
        return BarcodeResult {
            success: false,
            message: String::from_str("분류번호는 5자리 숫자여야 합니다."),
            eps_content: None,
            file_path: None,
        };
    }
    // Supported dimension range.
    if !(0 <= request.bar_height_mm4 && request.bar_height_mm4 <= MAX_DIM && -MAX_DIM
        <= request.addon_offset_mm4 && request.addon_offset_mm4 <= MAX_DIM) {
        return BarcodeResult {
            success: false,
            message: String::from_str("바코드 생성에 실패했습니다."),
            eps_content: None,
            file_path: None,
        };
    }
    match generate_eps(
        request.isbn.as_str(),
        request.addon.as_str(),
        request.bar_height_mm4,
        request.dpi,
        request.addon_offset_mm4,
    ) {
        Some(content) => BarcodeResult {
            success: true,
            message: String::from_str("바코드가 생성되었습니다."),
            eps_content: Some(content),
            file_path: None,
        },
        None => BarcodeResult {
            success: false,
            message: String::from_str("바코드 생성에 실패했습니다."),
            eps_content: None,
            file_path: None,
        },
    }
}

} // verus!

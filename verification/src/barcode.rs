//! EAN-13 / EAN-5 symbology: checksum validation and module-sequence
//! encoding from the fixed GS1 code tables.

use vstd::prelude::*;

verus! {

// ---------------------------------------------------------------------------
// Digit characters
// ---------------------------------------------------------------------------

/// `c` is one of the ten decimal digit characters.
pub open spec fn is_digit_char(c: char) -> bool {
    48 <= c as u32 && c as u32 <= 57
}

/// Numeric value of a decimal digit character.
pub open spec fn digit_val(c: char) -> int {
    c as u32 - 48
}

/// `s` consists of exactly `n` decimal digit characters.
pub open spec fn valid_digit_string(s: Seq<char>, n: int) -> bool {
    s.len() == n && forall|i: int| 0 <= i < s.len() ==> is_digit_char(#[trigger] s[i])
}

/// Weight of position `i` in the EAN-13 checksum: 1 on even positions,
/// 3 on odd ones.
pub open spec fn weight13(i: int) -> int {
    if i % 2 == 0 {
        1
    } else {
        3
    }
}

/// Weighted digit sum of `s` with weights alternating 1, 3, 1, 3, ...
/// starting at position 0.
pub open spec fn weighted_sum(s: Seq<char>) -> int
    decreases s.len(),
{
    if s.len() == 0 {
        0
    } else {
        weighted_sum(s.drop_last()) + weight13(s.len() - 1) * digit_val(s.last())
    }
}

/// The value of `c` as a digit, or `None` when `c` is not a digit.
fn digit_value(c: char) -> (r: Option<u8>)
    ensures
        r is Some <==> is_digit_char(c),
        r matches Some(d) ==> d == digit_val(c) && d < 10,
{
    let x = c as u32;
    if 48 <= x && x <= 57 {
        Some((x - 48) as u8)
    } else {
        None
    }
}

/// Reads `s` as a string of exactly `n` digits; returns their values,
/// or `None` when the length or a character is wrong.
pub(crate) fn parse_digits(s: &str, n: usize) -> (r: Option<Vec<u8>>)
    ensures
        r is Some <==> valid_digit_string(s@, n as int),
        r matches Some(ds) ==> ds@.len() == n && forall|i: int|
            0 <= i < n ==> #[trigger] ds@[i] == digit_val(s@[i]) && ds@[i] < 10,
{
    let len = s.unicode_len();
    if len != n {
        return None;
    }
    let mut ds: Vec<u8> = Vec::new();
    let mut i: usize = 0;
    while i < n
        invariant
            i <= n,
            n == s@.len(),
            ds@.len() == i,
            forall|j: int| 0 <= j < i ==> is_digit_char(#[trigger] s@[j]),
            forall|j: int| 0 <= j < i ==> #[trigger] ds@[j] == digit_val(s@[j]) && ds@[j] < 10,
        decreases n - i,
    {
        let c = s.get_char(i);
        match digit_value(c) {
            Some(d) => {
                ds.push(d);
            },
            None => {
                return None;
            },
        }
        i += 1;
    }
    Some(ds)
}

/// `s` consists of exactly `n` decimal digits.
pub fn is_digit_string(s: &String, n: usize) -> (r: bool)
    ensures
        r <==> valid_digit_string(s@, n as int),
{
    parse_digits(s.as_str(), n).is_some()
}

// ---------------------------------------------------------------------------
// Code tables
// ---------------------------------------------------------------------------

/// L-code (odd parity, left half) of digit `d`: a 7-module pattern.
pub open spec fn l_code(d: int) -> Seq<u8> {
    if d == 0 { seq![0u8, 0, 0, 1, 1, 0, 1] }
    else if d == 1 { seq![0u8, 0, 1, 1, 0, 0, 1] }
    else if d == 2 { seq![0u8, 0, 1, 0, 0, 1, 1] }
    else if d == 3 { seq![0u8, 1, 1, 1, 1, 0, 1] }
    else if d == 4 { seq![0u8, 1, 0, 0, 0, 1, 1] }
    else if d == 5 { seq![0u8, 1, 1, 0, 0, 0, 1] }
    else if d == 6 { seq![0u8, 1, 0, 1, 1, 1, 1] }
    else if d == 7 { seq![0u8, 1, 1, 1, 0, 1, 1] }
    else if d == 8 { seq![0u8, 1, 1, 0, 1, 1, 1] }
    else { seq![0u8, 0, 0, 1, 0, 1, 1] }
}

/// G-code (even parity, left half) of digit `d`.
pub open spec fn g_code(d: int) -> Seq<u8> {
    if d == 0 { seq![0u8, 1, 0, 0, 1, 1, 1] }
    else if d == 1 { seq![0u8, 1, 1, 0, 0, 1, 1] }
    else if d == 2 { seq![0u8, 0, 1, 1, 0, 1, 1] }
    else if d == 3 { seq![0u8, 1, 0, 0, 0, 0, 1] }
    else if d == 4 { seq![0u8, 0, 1, 1, 1, 0, 1] }
    else if d == 5 { seq![0u8, 1, 1, 1, 0, 0, 1] }
    else if d == 6 { seq![0u8, 0, 0, 0, 1, 0, 1] }
    else if d == 7 { seq![0u8, 0, 1, 0, 0, 0, 1] }
    else if d == 8 { seq![0u8, 0, 0, 1, 0, 0, 1] }
    else { seq![0u8, 0, 1, 0, 1, 1, 1] }
}

/// R-code (right half) of digit `d`.
pub open spec fn r_code(d: int) -> Seq<u8> {
    if d == 0 { seq![1u8, 1, 1, 0, 0, 1, 0] }
    else if d == 1 { seq![1u8, 1, 0, 0, 1, 1, 0] }
    else if d == 2 { seq![1u8, 1, 0, 1, 1, 0, 0] }
    else if d == 3 { seq![1u8, 0, 0, 0, 0, 1, 0] }
    else if d == 4 { seq![1u8, 0, 1, 1, 1, 0, 0] }
    else if d == 5 { seq![1u8, 0, 0, 1, 1, 1, 0] }
    else if d == 6 { seq![1u8, 0, 1, 0, 0, 0, 0] }
    else if d == 7 { seq![1u8, 0, 0, 0, 1, 0, 0] }
    else if d == 8 { seq![1u8, 0, 0, 1, 0, 0, 0] }
    else { seq![1u8, 1, 1, 0, 1, 0, 0] }
}

/// L/G pattern for the six left-half digits of an EAN-13 symbol,
/// selected by the leading digit.
pub open spec fn first_digit_pattern(d: int) -> Seq<char> {
    if d == 0 { seq!['L', 'L', 'L', 'L', 'L', 'L'] }
    else if d == 1 { seq!['L', 'L', 'G', 'L', 'G', 'G'] }
    else if d == 2 { seq!['L', 'L', 'G', 'G', 'L', 'G'] }
    else if d == 3 { seq!['L', 'L', 'G', 'G', 'G', 'L'] }
    else if d == 4 { seq!['L', 'G', 'L', 'L', 'G', 'G'] }
    else if d == 5 { seq!['L', 'G', 'G', 'L', 'L', 'G'] }
    else if d == 6 { seq!['L', 'G', 'G', 'G', 'L', 'L'] }
    else if d == 7 { seq!['L', 'G', 'L', 'G', 'L', 'G'] }
    else if d == 8 { seq!['L', 'G', 'L', 'G', 'G', 'L'] }
    else { seq!['L', 'G', 'G', 'L', 'G', 'L'] }
}

/// L/G pattern for the five digits of an EAN-5 add-on, selected by the
/// computed EAN-5 check digit.
pub open spec fn ean5_pattern(d: int) -> Seq<char> {
    if d == 0 { seq!['G', 'G', 'L', 'L', 'L'] }
    else if d == 1 { seq!['G', 'L', 'G', 'L', 'L'] }
    else if d == 2 { seq!['G', 'L', 'L', 'G', 'L'] }
    else if d == 3 { seq!['G', 'L', 'L', 'L', 'G'] }
    else if d == 4 { seq!['L', 'G', 'G', 'L', 'L'] }
    else if d == 5 { seq!['L', 'L', 'G', 'G', 'L'] }
    else if d == 6 { seq!['L', 'L', 'L', 'G', 'G'] }
    else if d == 7 { seq!['L', 'G', 'L', 'G', 'L'] }
    else if d == 8 { seq!['L', 'G', 'L', 'L', 'G'] }
    else { seq!['L', 'L', 'G', 'L', 'G'] }
}

/// The 7-module code of left-half digit position `i` (0-based) of an
/// EAN-13 symbol: table `L` or `G` according to the pattern `p`.
pub open spec fn left_code(p: Seq<char>, d: int, i: int) -> Seq<u8> {
    if p[i] == 'G' {
        g_code(d)
    } else {
        l_code(d)
    }
}

/// Appends two module values to `m`.
fn push2(m: &mut Vec<u8>, b0: u8, b1: u8)
    ensures
        final(m)@ == old(m)@ + seq![b0, b1],
{
    m.push(b0);
    m.push(b1);
    proof {
        assert(m@ =~= old(m)@ + seq![b0, b1]);
    }
}

/// Appends three module values to `m`.
fn push3(m: &mut Vec<u8>, b0: u8, b1: u8, b2: u8)
    ensures
        final(m)@ == old(m)@ + seq![b0, b1, b2],
{
    m.push(b0);
    m.push(b1);
    m.push(b2);
    proof {
        assert(m@ =~= old(m)@ + seq![b0, b1, b2]);
    }
}

/// Appends four module values to `m`.
fn push4(m: &mut Vec<u8>, b0: u8, b1: u8, b2: u8, b3: u8)
    ensures
        final(m)@ == old(m)@ + seq![b0, b1, b2, b3],
{
    m.push(b0);
    m.push(b1);
    m.push(b2);
    m.push(b3);
    proof {
        assert(m@ =~= old(m)@ + seq![b0, b1, b2, b3]);
    }
}

/// Appends five module values to `m`.
fn push5(m: &mut Vec<u8>, b0: u8, b1: u8, b2: u8, b3: u8, b4: u8)
    ensures
        final(m)@ == old(m)@ + seq![b0, b1, b2, b3, b4],
{
    m.push(b0);
    m.push(b1);
    m.push(b2);
    m.push(b3);
    m.push(b4);
    proof {
        assert(m@ =~= old(m)@ + seq![b0, b1, b2, b3, b4]);
    }
}

/// Appends seven module values to `m`.
fn push7(m: &mut Vec<u8>, b0: u8, b1: u8, b2: u8, b3: u8, b4: u8, b5: u8, b6: u8)
    ensures
        final(m)@ == old(m)@ + seq![b0, b1, b2, b3, b4, b5, b6],
{
    m.push(b0);
    m.push(b1);
    m.push(b2);
    m.push(b3);
    m.push(b4);
    m.push(b5);
    m.push(b6);
    proof {
        assert(m@ =~= old(m)@ + seq![b0, b1, b2, b3, b4, b5, b6]);
    }
}

/// Appends the L-code of digit `d` to `m`.
fn push_l_code(m: &mut Vec<u8>, d: u8)
    requires
        d < 10,
    ensures
        final(m)@ == old(m)@ + l_code(d as int),
{
    match d {
        0 => push7(m, 0, 0, 0, 1, 1, 0, 1),
        1 => push7(m, 0, 0, 1, 1, 0, 0, 1),
        2 => push7(m, 0, 0, 1, 0, 0, 1, 1),
        3 => push7(m, 0, 1, 1, 1, 1, 0, 1),
        4 => push7(m, 0, 1, 0, 0, 0, 1, 1),
        5 => push7(m, 0, 1, 1, 0, 0, 0, 1),
        6 => push7(m, 0, 1, 0, 1, 1, 1, 1),
        7 => push7(m, 0, 1, 1, 1, 0, 1, 1),
        8 => push7(m, 0, 1, 1, 0, 1, 1, 1),
        _ => push7(m, 0, 0, 0, 1, 0, 1, 1),
    }
}

/// Appends the G-code of digit `d` to `m`.
fn push_g_code(m: &mut Vec<u8>, d: u8)
    requires
        d < 10,
    ensures
        final(m)@ == old(m)@ + g_code(d as int),
{
    match d {
        0 => push7(m, 0, 1, 0, 0, 1, 1, 1),
        1 => push7(m, 0, 1, 1, 0, 0, 1, 1),
        2 => push7(m, 0, 0, 1, 1, 0, 1, 1),
        3 => push7(m, 0, 1, 0, 0, 0, 0, 1),
        4 => push7(m, 0, 0, 1, 1, 1, 0, 1),
        5 => push7(m, 0, 1, 1, 1, 0, 0, 1),
        6 => push7(m, 0, 0, 0, 0, 1, 0, 1),
        7 => push7(m, 0, 0, 1, 0, 0, 0, 1),
        8 => push7(m, 0, 0, 0, 1, 0, 0, 1),
        _ => push7(m, 0, 0, 1, 0, 1, 1, 1),
    }
}

/// Appends the R-code of digit `d` to `m`.
fn push_r_code(m: &mut Vec<u8>, d: u8)
    requires
        d < 10,
    ensures
        final(m)@ == old(m)@ + r_code(d as int),
{
    match d {
        0 => push7(m, 1, 1, 1, 0, 0, 1, 0),
        1 => push7(m, 1, 1, 0, 0, 1, 1, 0),
        2 => push7(m, 1, 1, 0, 1, 1, 0, 0),
        3 => push7(m, 1, 0, 0, 0, 0, 1, 0),
        4 => push7(m, 1, 0, 1, 1, 1, 0, 0),
        5 => push7(m, 1, 0, 0, 1, 1, 1, 0),
        6 => push7(m, 1, 0, 1, 0, 0, 0, 0),
        7 => push7(m, 1, 0, 0, 0, 1, 0, 0),
        8 => push7(m, 1, 0, 0, 1, 0, 0, 0),
        _ => push7(m, 1, 1, 1, 0, 1, 0, 0),
    }
}

/// Appends five pattern letters to `v`.
fn push5_chars(v: &mut Vec<char>, c0: char, c1: char, c2: char, c3: char, c4: char)
    ensures
        final(v)@ == old(v)@ + seq![c0, c1, c2, c3, c4],
{
    v.push(c0);
    v.push(c1);
    v.push(c2);
    v.push(c3);
    v.push(c4);
    proof {
        assert(v@ =~= old(v)@ + seq![c0, c1, c2, c3, c4]);
    }
}

/// The first-digit L/G pattern of an EAN-13 symbol, as characters.
fn first_digit_pattern_vec(d: u8) -> (v: Vec<char>)
    requires
        d < 10,
    ensures
        v@ == first_digit_pattern(d as int),
{
    let mut v: Vec<char> = Vec::new();
    v.push('L');
    match d {
        0 => push5_chars(&mut v, 'L', 'L', 'L', 'L', 'L'),
        1 => push5_chars(&mut v, 'L', 'G', 'L', 'G', 'G'),
        2 => push5_chars(&mut v, 'L', 'G', 'G', 'L', 'G'),
        3 => push5_chars(&mut v, 'L', 'G', 'G', 'G', 'L'),
        4 => push5_chars(&mut v, 'G', 'L', 'L', 'G', 'G'),
        5 => push5_chars(&mut v, 'G', 'G', 'L', 'L', 'G'),
        6 => push5_chars(&mut v, 'G', 'G', 'G', 'L', 'L'),
        7 => push5_chars(&mut v, 'G', 'L', 'G', 'L', 'G'),
        8 => push5_chars(&mut v, 'G', 'L', 'G', 'G', 'L'),
        _ => push5_chars(&mut v, 'G', 'G', 'L', 'G', 'L'),
    }
    proof {
        assert(v@ =~= first_digit_pattern(d as int));
    }
    v
}

/// The EAN-5 L/G pattern selected by check digit `d`, as characters.
fn ean5_pattern_vec(d: u8) -> (v: Vec<char>)
    requires
        d < 10,
    ensures
        v@ == ean5_pattern(d as int),
{
    let mut v: Vec<char> = Vec::new();
    match d {
        0 => push5_chars(&mut v, 'G', 'G', 'L', 'L', 'L'),
        1 => push5_chars(&mut v, 'G', 'L', 'G', 'L', 'L'),
        2 => push5_chars(&mut v, 'G', 'L', 'L', 'G', 'L'),
        3 => push5_chars(&mut v, 'G', 'L', 'L', 'L', 'G'),
        4 => push5_chars(&mut v, 'L', 'G', 'G', 'L', 'L'),
        5 => push5_chars(&mut v, 'L', 'L', 'G', 'G', 'L'),
        6 => push5_chars(&mut v, 'L', 'L', 'L', 'G', 'G'),
        7 => push5_chars(&mut v, 'L', 'G', 'L', 'G', 'L'),
        8 => push5_chars(&mut v, 'L', 'G', 'L', 'L', 'G'),
        _ => push5_chars(&mut v, 'L', 'L', 'G', 'L', 'G'),
    }
    proof {
        assert(v@ =~= ean5_pattern(d as int));
    }
    v
}

/// Appends the L- or G-code of digit `d` according to `letter`.
fn push_left_code(m: &mut Vec<u8>, letter: char, d: u8)
    requires
        d < 10,
    ensures
        final(m)@ == old(m)@ + (if letter == 'G' { g_code(d as int) } else { l_code(d as int) }),
{
    if letter == 'G' {
        push_g_code(m, d);
    } else {
        push_l_code(m, d);
    }
}

/// Validates the check digit of a 13-digit identifier: true iff `isbn`
/// is exactly 13 decimal digits and its weighted sum (weights 1,3,1,3,...)
/// is divisible by 10.
pub fn validate_isbn13(isbn: &str) -> (r: bool)
    ensures
        r <==> valid_digit_string(isbn@, 13) && weighted_sum(isbn@) % 10 == 0,
{
    let digits = match parse_digits(isbn, 13) {
        Some(ds) => ds,
        None => {
            return false;
        },
    };
    let mut sum: u32 = 0;
    let mut i: usize = 0;
    while i < 13
        invariant
            i <= 13,
            isbn@.len() == 13,
            digits@.len() == 13,
            forall|j: int| 0 <= j < 13 ==> #[trigger] digits@[j] == digit_val(isbn@[j]) && digits@[j] < 10,
            sum == weighted_sum(isbn@.take(i as int)),
            sum <= 27 * i,
        decreases 13 - i,
    {
        let d = digits[i] as u32;
        if i % 2 == 0 {
            sum += d;
        } else {
            sum += 3 * d;
        }
        proof {
            let t = isbn@.take(i + 1);
            assert(t.drop_last() =~= isbn@.take(i as int));
            assert(t.last() == isbn@[i as int]);
        }
        i += 1;
    }
    proof {
        assert(isbn@.take(13) =~= isbn@);
    }
    sum % 10 == 0
}

// ---------------------------------------------------------------------------
// Module sequences
// ---------------------------------------------------------------------------

/// The 95-module EAN-13 sequence of a 13-digit string `s`: start guard,
/// six left-half codes chosen from tables L/G by the leading digit's
/// pattern, center guard, six right-half R-codes, end guard.
pub open spec fn ean13_modules(s: Seq<char>) -> Seq<u8> {
    let p = first_digit_pattern(digit_val(s[0]));
    seq![1u8, 0, 1] + left_code(p, digit_val(s[1]), 0) + left_code(p, digit_val(s[2]), 1)
        + left_code(p, digit_val(s[3]), 2) + left_code(p, digit_val(s[4]), 3)
        + left_code(p, digit_val(s[5]), 4) + left_code(p, digit_val(s[6]), 5)
        + seq![0u8, 1, 0, 1, 0] + r_code(digit_val(s[7])) + r_code(digit_val(s[8]))
        + r_code(digit_val(s[9])) + r_code(digit_val(s[10])) + r_code(digit_val(s[11]))
        + r_code(digit_val(s[12])) + seq![1u8, 0, 1]
}

/// The EAN-5 check digit of five digit values: a weighted sum with
/// weights 3, 9, 3, 9, 3, taken mod 10. It selects the parity pattern
/// and is never itself rendered.
pub open spec fn ean5_check_val(d0: int, d1: int, d2: int, d3: int, d4: int) -> int {
    (3 * d0 + 9 * d1 + 3 * d2 + 9 * d3 + 3 * d4) % 10
}

/// The 7-module code of EAN-5 digit position `i` under pattern `p`.
pub open spec fn ean5_code(p: Seq<char>, d: int, i: int) -> Seq<u8> {
    if p[i] == 'G' {
        g_code(d)
    } else {
        l_code(d)
    }
}

/// The 47-module EAN-5 sequence of a 5-digit string `s`: start marker,
/// then each digit's L/G code (chosen by the check digit's pattern),
/// with a 2-module separator between consecutive digits.
pub open spec fn ean5_modules(s: Seq<char>) -> Seq<u8> {
    let p = ean5_pattern(
        ean5_check_val(
            digit_val(s[0]),
            digit_val(s[1]),
            digit_val(s[2]),
            digit_val(s[3]),
            digit_val(s[4]),
        ),
    );
    seq![1u8, 0, 1, 1] + ean5_code(p, digit_val(s[0]), 0) + seq![0u8, 1]
        + ean5_code(p, digit_val(s[1]), 1) + seq![0u8, 1] + ean5_code(p, digit_val(s[2]), 2)
        + seq![0u8, 1] + ean5_code(p, digit_val(s[3]), 3) + seq![0u8, 1]
        + ean5_code(p, digit_val(s[4]), 4)
}

// ---------------------------------------------------------------------------
// Encoders
// ---------------------------------------------------------------------------

/// Encodes a 13-digit string as its EAN-13 module sequence (0 = space,
/// 1 = bar). Only the digit format is required here; the checksum is
/// validated separately by `validate_isbn13`.
pub fn encode_ean13(isbn: &str) -> (r: Option<Vec<u8>>)
    ensures
        r is Some <==> valid_digit_string(isbn@, 13),
        r matches Some(m) ==> m@ == ean13_modules(isbn@) && m@.len() == 95,
{
    let digits = match parse_digits(isbn, 13) {
        Some(ds) => ds,
        None => {
            return None;
        },
    };
    let pattern = first_digit_pattern_vec(digits[0]);
    let mut m: Vec<u8> = Vec::new();
    proof {
        assert(m@ + seq![1u8, 0, 1] =~= seq![1u8, 0, 1]);
    }

    // Start guard
    push3(&mut m, 1, 0, 1);

    // Left half: digits at positions 1..=6 under the leading digit's pattern
    push_left_code(&mut m, pattern[0], digits[1]);
    push_left_code(&mut m, pattern[1], digits[2]);
    push_left_code(&mut m, pattern[2], digits[3]);
    push_left_code(&mut m, pattern[3], digits[4]);
    push_left_code(&mut m, pattern[4], digits[5]);
    push_left_code(&mut m, pattern[5], digits[6]);

    // Center guard
    push5(&mut m, 0, 1, 0, 1, 0);

    // Right half: digits at positions 7..=12 from table R
    push_r_code(&mut m, digits[7]);
    push_r_code(&mut m, digits[8]);
    push_r_code(&mut m, digits[9]);
    push_r_code(&mut m, digits[10]);
    push_r_code(&mut m, digits[11]);
    push_r_code(&mut m, digits[12]);

    // End guard
    push3(&mut m, 1, 0, 1);

    proof {
        assert(m@ == ean13_modules(isbn@));
    }
    Some(m)
}

/// The EAN-5 check digit of five digit values.
pub fn ean5_check(digits: &[usize; 5]) -> (r: usize)
    requires
        forall|i: int| 0 <= i < 5 ==> digits@[i] < 10,
    ensures
        r == ean5_check_val(
            digits@[0] as int,
            digits@[1] as int,
            digits@[2] as int,
            digits@[3] as int,
            digits@[4] as int,
        ),
        r < 10,
{
    let sum = digits[0] * 3 + digits[1] * 9 + digits[2] * 3 + digits[3] * 9 + digits[4] * 3;
    sum % 10
}

/// Encodes a 5-digit string as its EAN-5 add-on module sequence.
#[verifier::rlimit(50)]
pub fn encode_ean5(addon: &str) -> (r: Option<Vec<u8>>)
    ensures
        r is Some <==> valid_digit_string(addon@, 5),
        r matches Some(m) ==> m@ == ean5_modules(addon@) && m@.len() == 47,
{
    let digits = match parse_digits(addon, 5) {
        Some(ds) => ds,
        None => {
            return None;
        },
    };
    let darr: [usize; 5] = [
        digits[0] as usize,
        digits[1] as usize,
        digits[2] as usize,
        digits[3] as usize,
        digits[4] as usize,
    ];
    let check = ean5_check(&darr);
    proof {
        assert(check == ean5_check_val(
            digit_val(addon@[0]),
            digit_val(addon@[1]),
            digit_val(addon@[2]),
            digit_val(addon@[3]),
            digit_val(addon@[4]),
        ));
    }
    let pattern = ean5_pattern_vec(check as u8);
    proof {
        assert(pattern@ == ean5_pattern(
            ean5_check_val(
                digit_val(addon@[0]),
                digit_val(addon@[1]),
                digit_val(addon@[2]),
                digit_val(addon@[3]),
                digit_val(addon@[4]),
            ),
        ));
    }
    let mut m: Vec<u8> = Vec::new();
    proof {
        assert(m@ + seq![1u8, 0, 1, 1] =~= seq![1u8, 0, 1, 1]);
    }

    // Start marker
    push4(&mut m, 1, 0, 1, 1);

    push_left_code(&mut m, pattern[0], digits[0]);
    push2(&mut m, 0, 1);
    push_left_code(&mut m, pattern[1], digits[1]);
    push2(&mut m, 0, 1);
    push_left_code(&mut m, pattern[2], digits[2]);
    push2(&mut m, 0, 1);
    push_left_code(&mut m, pattern[3], digits[3]);
    push2(&mut m, 0, 1);
    push_left_code(&mut m, pattern[4], digits[4]);

    proof {
        assert(m@ == ean5_modules(addon@));
    }
    Some(m)
}

// ---------------------------------------------------------------------------
// Laws
// ---------------------------------------------------------------------------

/// Law: EAN-13 encoding is deterministic. The module sequence is a
/// function of the digit characters alone, so any two encodings of the
/// same string are equal.
pub proof fn lemma_encode_ean13_deterministic(s: Seq<char>, m1: Seq<u8>, m2: Seq<u8>)
    requires
        m1 == ean13_modules(s),
        m2 == ean13_modules(s),
    ensures
        m1 == m2,
{
}

/// Law: EAN-5 encoding is deterministic. The module sequence is a
/// function of the digit characters alone, so any two encodings of the
/// same string are equal.
pub proof fn lemma_encode_ean5_deterministic(s: Seq<char>, m1: Seq<u8>, m2: Seq<u8>)
    requires
        m1 == ean5_modules(s),
        m2 == ean5_modules(s),
    ensures
        m1 == m2,
{
}

/// Law: the EAN-13 parity pattern is a pure function of the leading
/// digit. Two 13-digit strings with the same leading digit use the same
/// code table (L or G) at every left-half position, whatever their other
/// digits are.
pub proof fn lemma_ean13_parity_from_leading(s1: Seq<char>, s2: Seq<char>)
    requires
        valid_digit_string(s1, 13),
        valid_digit_string(s2, 13),
        s1[0] == s2[0],
    ensures
        first_digit_pattern(digit_val(s1[0])) == first_digit_pattern(digit_val(s2[0])),
        forall|i: int, d: int|
            0 <= i < 6 ==> #[trigger] left_code(first_digit_pattern(digit_val(s1[0])), d, i)
                == left_code(first_digit_pattern(digit_val(s2[0])), d, i),
{
}

/// Law: the EAN-5 parity pattern is a pure function of the computed
/// check digit. Two 5-digit strings whose check digits agree use the
/// same code table at every position.
pub proof fn lemma_ean5_parity_from_check(a1: Seq<char>, a2: Seq<char>)
    requires
        valid_digit_string(a1, 5),
        valid_digit_string(a2, 5),
        ean5_check_val(
            digit_val(a1[0]),
            digit_val(a1[1]),
            digit_val(a1[2]),
            digit_val(a1[3]),
            digit_val(a1[4]),
        ) == ean5_check_val(
            digit_val(a2[0]),
            digit_val(a2[1]),
            digit_val(a2[2]),
            digit_val(a2[3]),
            digit_val(a2[4]),
        ),
    ensures
        ean5_pattern(
            ean5_check_val(
                digit_val(a1[0]),
                digit_val(a1[1]),
                digit_val(a1[2]),
                digit_val(a1[3]),
                digit_val(a1[4]),
            ),
        ) == ean5_pattern(
            ean5_check_val(
                digit_val(a2[0]),
                digit_val(a2[1]),
                digit_val(a2[2]),
                digit_val(a2[3]),
                digit_val(a2[4]),
            ),
        ),
{
}

} // verus!

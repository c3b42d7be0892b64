//! Fixed-precision decimal formatting.
//!
//! The EPS output must be byte-for-byte reproducible, so every number is
//! carried as a scaled integer and printed here with an exact number of
//! decimal places.

use vstd::prelude::*;

verus! {

/// The character of a single decimal digit, as a one-character string view.
pub open spec fn digit_chars(d: int) -> Seq<char> {
    if d == 0 { "0"@ }
    else if d == 1 { "1"@ }
    else if d == 2 { "2"@ }
    else if d == 3 { "3"@ }
    else if d == 4 { "4"@ }
    else if d == 5 { "5"@ }
    else if d == 6 { "6"@ }
    else if d == 7 { "7"@ }
    else if d == 8 { "8"@ }
    else { "9"@ }
}

/// The usual decimal rendering of `n`, without sign or padding.
pub open spec fn dec_digits(n: nat) -> Seq<char>
    decreases n,
{
    if n < 10 {
        digit_chars(n as int)
    } else {
        dec_digits(n / 10) + digit_chars((n % 10) as int)
    }
}

/// The decimal rendering of `n` left-padded with zeros to exactly `w`
/// digits (`n < 10^w`).
pub open spec fn dec_padded(n: nat, w: nat) -> Seq<char>
    decreases w,
{
    if w == 0 {
        Seq::empty()
    } else {
        dec_padded(n / 10, (w - 1) as nat) + digit_chars((n % 10) as int)
    }
}

/// 10 to the power `e`.
pub open spec fn pow10(e: nat) -> nat
    decreases e,
{
    if e == 0 {
        1
    } else {
        10 * pow10((e - 1) as nat)
    }
}

/// The rendering of the fixed-point value `v / 10^d` with exactly `d`
/// digits after the decimal point, sign first.
pub open spec fn fixed_chars(v: int, d: nat) -> Seq<char> {
    let m = if v >= 0 { v } else { -v };
    (if v < 0 { "-"@ } else { Seq::empty() }) + dec_digits((m / pow10(d) as int) as nat) + "."@
        + dec_padded((m % pow10(d) as int) as nat, d)
}

/// Powers of ten used by the renderer.
pub proof fn lemma_pow10_values()
    ensures
        pow10(4) == 10000,
        pow10(5) == 100000,
        pow10(7) == 10000000,
        pow10(8) == 100000000,
        pow10(12) == 1000000000000,
{
    reveal_with_fuel(pow10, 13);
}

/// A one-character string holding digit `d`.
pub fn digit_str(d: u8) -> (s: &'static str)
    requires
        d < 10,
    ensures
        s@ == digit_chars(d as int),
{
    match d {
        0 => "0",
        1 => "1",
        2 => "2",
        3 => "3",
        4 => "4",
        5 => "5",
        6 => "6",
        7 => "7",
        8 => "8",
        _ => "9",
    }
}

/// Appends the decimal rendering of `n` to `out`.
pub fn push_uint(out: &mut String, n: u64)
    ensures
        final(out)@ == old(out)@ + dec_digits(n as nat),
    decreases n,
{
    if n >= 10 {
        push_uint(out, n / 10);
    }
    out.append(digit_str((n % 10) as u8));
}

/// Appends the decimal rendering of `n`, zero-padded to `w` digits.
pub fn push_uint_padded(out: &mut String, n: u64, w: usize)
    requires
        1 <= w,
        n < pow10(w as nat),
    ensures
        final(out)@ == old(out)@ + dec_padded(n as nat, w as nat),
    decreases w,
{
    proof {
        assert(pow10(w as nat) == 10 * pow10((w - 1) as nat));
    }
    if w > 1 {
        push_uint_padded(out, n / 10, w - 1);
    } else {
        proof {
            assert(dec_padded((n / 10) as nat, 0) =~= Seq::<char>::empty());
            assert(old(out)@ + Seq::<char>::empty() =~= old(out)@);
        }
    }
    out.append(digit_str((n % 10) as u8));
}

/// Appends the rendering of the fixed-point value `v / 10^d` with exactly
/// `d` decimal places. `p` must be `10^d`.
pub fn push_fixed(out: &mut String, v: i64, p: u64, d: usize)
    requires
        v > i64::MIN,
        1 <= d,
        p == pow10(d as nat),
    ensures
        final(out)@ == old(out)@ + fixed_chars(v as int, d as nat),
{
    proof {
        lemma_pow10_pos(d as nat);
    }
    let m: u64 = if v < 0 {
        out.append("-");
        (-v) as u64
    } else {
        v as u64
    };
    push_uint(out, m / p);
    out.append(".");
    push_uint_padded(out, m % p, d);
    proof {
        if v >= 0 {
            assert(Seq::<char>::empty() + dec_digits((m / p) as nat) =~= dec_digits(
                (m / p) as nat,
            ));
        }
    }
}

/// `10^e` is positive.
pub proof fn lemma_pow10_pos(e: nat)
    ensures
        pow10(e) >= 1,
    decreases e,
{
    if e > 0 {
        lemma_pow10_pos((e - 1) as nat);
    }
}

} // verus!

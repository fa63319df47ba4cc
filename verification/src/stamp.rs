//! Zero-padded decimal rendering and the timestamp-based fallback file name
//! `download_YYYYMMDD_HHMMSS.bin`.

use chrono::Datelike;
use chrono::Timelike;
use vstd::prelude::*;

verus! {

/// The decimal digit character for a value below ten.
pub open spec fn digit_char(d: nat) -> char {
    if d == 0 {
        '0'
    } else if d == 1 {
        '1'
    } else if d == 2 {
        '2'
    } else if d == 3 {
        '3'
    } else if d == 4 {
        '4'
    } else if d == 5 {
        '5'
    } else if d == 6 {
        '6'
    } else if d == 7 {
        '7'
    } else if d == 8 {
        '8'
    } else {
        '9'
    }
}

/// The low `width` decimal digits of `n`, zero-padded, most significant first.
pub open spec fn decimal_seq(n: nat, width: nat) -> Seq<char>
    decreases width,
{
    if width == 0 {
        Seq::empty()
    } else {
        decimal_seq(n / 10, (width - 1) as nat).push(digit_char(n % 10))
    }
}

/// Every character of a zero-padded decimal rendering is a decimal digit, and
/// the rendering is exactly `width` characters long.
pub proof fn lemma_decimal_seq_shape(n: nat, width: nat)
    ensures
        decimal_seq(n, width).len() == width,
        forall|j: int|
            0 <= j < width ==> '0' <= #[trigger] decimal_seq(n, width)[j] && decimal_seq(
                n,
                width,
            )[j] <= '9',
    decreases width,
{
    if width > 0 {
        lemma_decimal_seq_shape(n / 10, (width - 1) as nat);
    }
}

/// Appends the low `width` decimal digits of `n`, zero-padded, to `out`.
pub fn push_decimal(out: &mut String, n: u32, width: u32)
    ensures
        final(out)@ == old(out)@ + decimal_seq(n as nat, width as nat),
    decreases width,
{
    if width == 0 {
        proof {
            assert(old(out)@ + decimal_seq(n as nat, 0) =~= old(out)@);
        }
        return ;
    }
    push_decimal(out, n / 10, width - 1);
    let digits = "0123456789";
    proof {
        reveal_strlit("0123456789");
    }
    let d = (n % 10) as usize;
    let one = digits.substring_char(d, d + 1);
    out.append(one);
    proof {
        assert(one@ =~= seq![digit_char((n % 10) as nat)]);
        assert(final(out)@ =~= old(out)@ + decimal_seq(n as nat, width as nat));
    }
}

/// The fourteen-digit UTC timestamp `YYYYMMDD_HHMMSS` as characters.
pub open spec fn timestamp_chars(y: nat, mo: nat, d: nat, h: nat, mi: nat, s: nat) -> Seq<char> {
    decimal_seq(y, 4) + decimal_seq(mo, 2) + decimal_seq(d, 2) + seq!['_'] + decimal_seq(h, 2)
        + decimal_seq(mi, 2) + decimal_seq(s, 2)
}

/// The fallback output file name for a URL without a usable path segment.
pub open spec fn fallback_name_chars(y: nat, mo: nat, d: nat, h: nat, mi: nat, s: nat) -> Seq<
    char,
> {
    "download_"@ + timestamp_chars(y, mo, d, h, mi, s) + ".bin"@
}

/// A UTC wall-clock reading broken into calendar fields.
#[derive(Clone, Copy, Debug, PartialEq, Eq, Structural)]
pub struct ClockParts {
    pub year: i32,
    pub month: u32,
    pub day: u32,
    pub hour: u32,
    pub minute: u32,
    pub second: u32,
}

impl ClockParts {
    /// The field ranges a calendar clock reading always satisfies.
    pub open spec fn wf(self) -> bool {
        &&& 1 <= self.month <= 12
        &&& 1 <= self.day <= 31
        &&& self.hour <= 23
        &&& self.minute <= 59
        &&& self.second <= 59
    }
}

/// Relies on chrono's `Utc::now` and the `Datelike`/`Timelike` field accessors
/// (`year`, `month`, `day`, `hour`, `minute`, `second`): chrono documents the
/// accessor ranges (month 1..=12, day 1..=31, hour 0..=23, minute and second
/// 0..=59). The reading itself depends on the wall clock, so nothing more is
/// promised of it.
#[verifier::external_body]
pub fn utc_now_parts() -> (t: ClockParts)
    ensures
        t.wf(),
{
    let now = chrono::Utc::now();
    ClockParts {
        year: now.year(),
        month: now.month(),
        day: now.day(),
        hour: now.hour(),
        minute: now.minute(),
        second: now.second(),
    }
}

/// The year reduced modulo 10000, so that it zero-pads to exactly four
/// decimal digits even for years out of that range.
pub fn year_low_digits(year: i32) -> (r: u32)
    ensures
        r < 10000,
        r as int == year as int % 10000,
{
    if year >= 0 {
        (year % 10000) as u32
    } else {
        let pos: i64 = -(year as i64);
        let m: i64 = pos % 10000;
        proof {
            let p = pos as int;
            assert(0 <= p % 10000 < 10000) by (nonlinear_arith)
                requires
                    p >= 0,
            ;
            assert((-p) % 10000 == (if p % 10000 == 0 {
                0int
            } else {
                10000 - p % 10000
            })) by (nonlinear_arith);
        }
        if m == 0 {
            0
        } else {
            (10000 - m) as u32
        }
    }
}

/// Builds the fallback file name `download_YYYYMMDD_HHMMSS.bin` from a clock
/// reading.
pub fn fallback_filename(now: &ClockParts) -> (r: String)
    requires
        now.wf(),
    ensures
        r@ == fallback_name_chars(
            (now.year as int % 10000) as nat,
            now.month as nat,
            now.day as nat,
            now.hour as nat,
            now.minute as nat,
            now.second as nat,
        ),
{
    let y = year_low_digits(now.year);
    let mut r = String::new();
    r.append("download_");
    push_decimal(&mut r, y, 4);
    push_decimal(&mut r, now.month, 2);
    push_decimal(&mut r, now.day, 2);
    r.append("_");
    push_decimal(&mut r, now.hour, 2);
    push_decimal(&mut r, now.minute, 2);
    push_decimal(&mut r, now.second, 2);
    r.append(".bin");
    proof {
        reveal_strlit("_");
        assert("_"@ =~= seq!['_']);
        assert(r@ =~= fallback_name_chars(
            y as nat,
            now.month as nat,
            now.day as nat,
            now.hour as nat,
            now.minute as nat,
            now.second as nat,
        ));
    }
    r
}

/// Whether `s` is a fallback file name for some well-formed clock reading:
/// the shape a derived name takes when the URL offers no segment with a dot.
pub open spec fn is_fallback_name(s: Seq<char>) -> bool {
    exists|y: nat, mo: nat, d: nat, h: nat, mi: nat, sec: nat|
        y < 10000 && 1 <= mo <= 12 && 1 <= d <= 31 && h <= 23 && mi <= 59 && sec <= 59 && s
            == fallback_name_chars(y, mo, d, h, mi, sec)
}

/// Every fallback file name reads `download_`, then fourteen decimal digits
/// split 8-and-6 by an underscore, then `.bin`: 28 characters in all.
pub proof fn lemma_fallback_name_shape(y: nat, mo: nat, d: nat, h: nat, mi: nat, s: nat)
    ensures
        fallback_name_chars(y, mo, d, h, mi, s).len() == 28,
        fallback_name_chars(y, mo, d, h, mi, s).subrange(0, 9) == "download_"@,
        fallback_name_chars(y, mo, d, h, mi, s)[17] == '_',
        fallback_name_chars(y, mo, d, h, mi, s).subrange(24, 28) == ".bin"@,
        forall|j: int|
            (9 <= j < 17 || 18 <= j < 24) ==> '0' <= #[trigger] fallback_name_chars(
                y,
                mo,
                d,
                h,
                mi,
                s,
            )[j] <= '9',
{
    reveal_strlit("download_");
    reveal_strlit(".bin");
    lemma_decimal_seq_shape(y, 4);
    lemma_decimal_seq_shape(mo, 2);
    lemma_decimal_seq_shape(d, 2);
    lemma_decimal_seq_shape(h, 2);
    lemma_decimal_seq_shape(mi, 2);
    lemma_decimal_seq_shape(s, 2);
    assert(fallback_name_chars(y, mo, d, h, mi, s).subrange(0, 9) =~= "download_"@);
    assert(fallback_name_chars(y, mo, d, h, mi, s).subrange(24, 28) =~= ".bin"@);
}

/// A file name derived without a usable URL segment always matches the
/// pattern `download_<8 digits>_<6 digits>.bin`, whatever the clock read.
pub proof fn lemma_derived_fallback_shape(s: Seq<char>)
    requires
        is_fallback_name(s),
    ensures
        s.len() == 28,
        s.subrange(0, 9) == "download_"@,
        s[17] == '_',
        s.subrange(24, 28) == ".bin"@,
        forall|j: int| (9 <= j < 17 || 18 <= j < 24) ==> '0' <= #[trigger] s[j] <= '9',
{
    let (y, mo, d, h, mi, sec) = choose|y: nat, mo: nat, d: nat, h: nat, mi: nat, sec: nat|
        y < 10000 && 1 <= mo <= 12 && 1 <= d <= 31 && h <= 23 && mi <= 59 && sec <= 59 && s
            == fallback_name_chars(y, mo, d, h, mi, sec);
    lemma_fallback_name_shape(y, mo, d, h, mi, sec);
}

} // verus!

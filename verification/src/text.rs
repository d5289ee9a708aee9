//! The short texts that the watch shows: the date, the battery charge and a voltage.
//!
//! Each formatter fills a caller's byte buffer and hands out the filled part as text. The
//! characters are given by spec functions on the numbers, so that what is shown can be read off
//! the contract.

use vstd::prelude::*;
use vstd::slice::slice_subrange;
use vstd::string::StringSliceAdditionalSpecFns;
use vstd::utf8::*;

verus! {

broadcast use vstd::string::group_string_axioms;

/// ASCII code of `0`.
pub const ZERO: u8 = 48;

/// ASCII code of `1`.
pub const ONE: u8 = 49;

/// ASCII code of `2`.
pub const TWO: u8 = 50;

/// ASCII code of `/`.
pub const SLASH: u8 = 47;

/// ASCII code of `%`.
pub const PERCENT: u8 = 37;

/// ASCII code of a space.
pub const SPACE: u8 = 32;

/// ASCII code of `C`.
pub const UPPER_C: u8 = 67;

/// ASCII code of `G`.
pub const UPPER_G: u8 = 71;

/// ASCII code of `H`.
pub const UPPER_H: u8 = 72;

/// ASCII code of `V`.
pub const UPPER_V: u8 = 86;

/// ASCII code of `m`.
pub const LOWER_M: u8 = 109;

/// The error of `core::str::from_utf8`. It is only ever discarded.
#[verifier::external_type_specification]
#[verifier::external_body]
pub struct ExUtf8Error(core::str::Utf8Error);

/// `core::str::from_utf8`: succeeds exactly on valid UTF-8, and the text it returns is encoded
/// by the bytes that it was given.
pub assume_specification<'a>[ core::str::from_utf8 ](v: &'a [u8]) -> (res: Result<
    &'a str,
    core::str::Utf8Error,
>)
    ensures
        res is Ok <==> valid_utf8(v@),
        res matches Ok(s) ==> s.spec_bytes() == v@,
;

/// The character that stands `n` places after `0`: a decimal digit where `n` is below ten.
pub open spec fn digit(n: int) -> char {
    (48 + n) as char
}

/// The tens and the units of `n`.
pub open spec fn two_digits(n: int) -> Seq<char> {
    seq![digit(n / 10), digit(n % 10)]
}

/// `DD/MM/20YY`.
pub open spec fn date_text(d: u8, m: u8, y: u8) -> Seq<char> {
    two_digits(d as int) + seq!['/'] + two_digits(m as int) + seq!['/', '2', '0'] + two_digits(
        y as int,
    )
}

/// The percentage without leading zeros, capped at 100, and a percent sign.
pub open spec fn percent_text(pct: u8) -> Seq<char> {
    if pct >= 100 {
        seq!['1', '0', '0', '%']
    } else if pct >= 10 {
        two_digits(pct as int) + seq!['%']
    } else {
        seq![digit(pct as int), '%']
    }
}

/// The percentage, followed by ` CHG` while the battery charges.
pub open spec fn battery_text(pct: u8, charging: bool) -> Seq<char> {
    if charging {
        percent_text(pct) + seq![' ', 'C', 'H', 'G']
    } else {
        percent_text(pct)
    }
}

/// The millivolts in three digits, with the thousands in front from 1000 on, and `mV`.
pub open spec fn millivolt_text(mv: u16) -> Seq<char> {
    (if mv >= 1000 {
        seq![digit(mv as int / 1000)]
    } else {
        Seq::empty()
    }) + seq![
        digit(mv as int / 100 % 10),
        digit(mv as int / 10 % 10),
        digit(mv as int % 10),
        'm',
        'V',
    ]
}

/// The bytes of an ASCII text.
pub open spec fn ascii_bytes(text: Seq<char>) -> Seq<u8> {
    Seq::new(text.len(), |i: int| text[i] as u8)
}

/// Bytes that spell an ASCII text are valid UTF-8, and only that text is encoded by them.
proof fn lemma_ascii_bytes(text: Seq<char>)
    requires
        is_ascii_chars(text),
    ensures
        valid_utf8(ascii_bytes(text)),
        forall|s: Seq<char>| #[trigger] encode_utf8(s) == ascii_bytes(text) ==> s == text,
{
    is_ascii_chars_encode_utf8(text);
    assert(encode_utf8(text) =~= ascii_bytes(text));
    encode_utf8_valid_utf8(text);
    assert forall|s: Seq<char>| #[trigger] encode_utf8(s) == ascii_bytes(text) implies s == text by {
        encode_utf8_decode_utf8(s);
        encode_utf8_decode_utf8(text);
    }
}

/// The date as `DD/MM/20YY`.
pub fn fmt_date_fr<'a>(buf: &'a mut [u8; 12], d: u8, m: u8, y: u8) -> (s: &'a str)
    ensures
        s@ == date_text(d, m, y),
        final(buf)@ == ascii_bytes(date_text(d, m, y)) + old(buf)@.skip(10),
{
    buf[0] = ZERO + d / 10;
    buf[1] = ZERO + d % 10;
    buf[2] = SLASH;
    buf[3] = ZERO + m / 10;
    buf[4] = ZERO + m % 10;
    buf[5] = SLASH;
    buf[6] = TWO;
    buf[7] = ZERO;
    buf[8] = ZERO + y / 10;
    buf[9] = ZERO + y % 10;
    proof {
        lemma_ascii_bytes(date_text(d, m, y));
        assert(buf@ =~= ascii_bytes(date_text(d, m, y)) + old(buf)@.skip(10));
        assert(buf@.subrange(0, 10) =~= ascii_bytes(date_text(d, m, y)));
    }
    match core::str::from_utf8(slice_subrange(buf.as_slice(), 0, 10)) {
        Ok(s) => s,
        Err(_) => "??/??/????",
    }
}

/// The battery charge, with ` CHG` behind it while charging.
pub fn fmt_batt<'a>(buf: &'a mut [u8; 16], pct: u8, chg: bool) -> (s: &'a str)
    ensures
        s@ == battery_text(pct, chg),
        final(buf)@ == ascii_bytes(battery_text(pct, chg)) + old(buf)@.skip(
            battery_text(pct, chg).len() as int,
        ),
{
    let mut p: usize;
    if pct >= 100 {
        buf[0] = ONE;
        buf[1] = ZERO;
        buf[2] = ZERO;
        p = 3;
    } else if pct >= 10 {
        buf[0] = ZERO + pct / 10;
        buf[1] = ZERO + pct % 10;
        p = 2;
    } else {
        buf[0] = ZERO + pct;
        p = 1;
    }
    buf[p] = PERCENT;
    p += 1;
    if chg {
        buf[p] = SPACE;
        buf[p + 1] = UPPER_C;
        buf[p + 2] = UPPER_H;
        buf[p + 3] = UPPER_G;
        p += 4;
    }
    proof {
        let text = battery_text(pct, chg);
        lemma_ascii_bytes(text);
        assert(buf@ =~= ascii_bytes(text) + old(buf)@.skip(text.len() as int));
        assert(buf@.subrange(0, p as int) =~= ascii_bytes(text));
    }
    match core::str::from_utf8(slice_subrange(buf.as_slice(), 0, p)) {
        Ok(s) => s,
        Err(_) => "?%",
    }
}

/// The battery charge alone.
pub fn fmt_bat_short<'a>(buf: &'a mut [u8; 4], pct: u8) -> (s: &'a str)
    ensures
        s@ == percent_text(pct),
        final(buf)@ == ascii_bytes(percent_text(pct)) + old(buf)@.skip(
            percent_text(pct).len() as int,
        ),
{
    let mut p: usize;
    if pct >= 100 {
        buf[0] = ONE;
        buf[1] = ZERO;
        buf[2] = ZERO;
        p = 3;
    } else if pct >= 10 {
        buf[0] = ZERO + pct / 10;
        buf[1] = ZERO + pct % 10;
        p = 2;
    } else {
        buf[0] = ZERO + pct;
        p = 1;
    }
    buf[p] = PERCENT;
    p += 1;
    proof {
        let text = percent_text(pct);
        lemma_ascii_bytes(text);
        assert(buf@ =~= ascii_bytes(text) + old(buf)@.skip(text.len() as int));
        assert(buf@.subrange(0, p as int) =~= ascii_bytes(text));
    }
    match core::str::from_utf8(slice_subrange(buf.as_slice(), 0, p)) {
        Ok(s) => s,
        Err(_) => "?%",
    }
}

/// A voltage in millivolts.
pub fn fmt_mv<'a>(buf: &'a mut [u8; 12], mv: u16) -> (s: &'a str)
    ensures
        s@ == millivolt_text(mv),
        final(buf)@ == ascii_bytes(millivolt_text(mv)) + old(buf)@.skip(
            millivolt_text(mv).len() as int,
        ),
{
    let mut p: usize = 0;
    if mv >= 1000 {
        buf[p] = ZERO + (mv / 1000) as u8;
        p += 1;
    }
    buf[p] = ZERO + ((mv / 100) % 10) as u8;
    buf[p + 1] = ZERO + ((mv / 10) % 10) as u8;
    buf[p + 2] = ZERO + (mv % 10) as u8;
    buf[p + 3] = LOWER_M;
    buf[p + 4] = UPPER_V;
    p += 5;
    proof {
        let text = millivolt_text(mv);
        lemma_ascii_bytes(text);
        assert(buf@ =~= ascii_bytes(text) + old(buf)@.skip(text.len() as int));
        assert(buf@.subrange(0, p as int) =~= ascii_bytes(text));
    }
    match core::str::from_utf8(slice_subrange(buf.as_slice(), 0, p)) {
        Ok(s) => s,
        Err(_) => "????mV",
    }
}

/// Two dates that are shown alike are the same date: no digit is lost in [`date_text`].
pub proof fn law_date_text_injective(d1: u8, m1: u8, y1: u8, d2: u8, m2: u8, y2: u8)
    requires
        date_text(d1, m1, y1) == date_text(d2, m2, y2),
    ensures
        d1 == d2,
        m1 == m2,
        y1 == y2,
{
    let a = date_text(d1, m1, y1);
    let b = date_text(d2, m2, y2);
    assert(a[0] == b[0] && a[1] == b[1] && a[3] == b[3] && a[4] == b[4]);
    assert(a[8] == b[8] && a[9] == b[9]);
}

/// Two charges up to 100 that are shown alike are the same charge, and above that the text
/// stays at that of 100.
pub proof fn law_percent_text_saturates(a: u8, b: u8)
    ensures
        a <= 100 && b <= 100 && percent_text(a) == percent_text(b) ==> a == b,
        a >= 100 ==> percent_text(a) == percent_text(100),
{
    if a <= 100 && b <= 100 && percent_text(a) == percent_text(b) {
        assert(percent_text(a).len() == percent_text(b).len());
        assert(percent_text(a)[0] == percent_text(b)[0]);
        assert(percent_text(a)[1] == percent_text(b)[1]);
    }
}

/// The charging state can be told from the text, whatever the charge.
pub proof fn law_battery_text_tells_charging(a: u8, ca: bool, b: u8, cb: bool)
    requires
        battery_text(a, ca) == battery_text(b, cb),
    ensures
        ca == cb,
        percent_text(a) == percent_text(b),
{
    assert(battery_text(a, ca).len() == battery_text(b, cb).len());
    assert(battery_text(a, ca).last() == battery_text(b, cb).last());
    assert(percent_text(a) =~= battery_text(a, ca).take(percent_text(a).len() as int));
    assert(percent_text(b) =~= battery_text(b, cb).take(percent_text(b).len() as int));
}

proof fn lemma_decimal_digits(n: int)
    requires
        n >= 0,
    ensures
        n == n / 1000 * 1000 + n / 100 % 10 * 100 + n / 10 % 10 * 10 + n % 10,
{
    assert(n / 100 == n / 10 / 10);
    assert(n / 1000 == n / 100 / 10);
}

proof fn lemma_digit_injective(a: int, b: int)
    requires
        0 <= a <= 65,
        0 <= b <= 65,
        digit(a) == digit(b),
    ensures
        a == b,
{
}

/// Two voltages that are shown alike are the same voltage.
pub proof fn law_millivolt_text_injective(a: u16, b: u16)
    requires
        millivolt_text(a) == millivolt_text(b),
    ensures
        a == b,
{
    let s = millivolt_text(a);
    let t = millivolt_text(b);
    assert(s.len() == t.len());
    let k: int = if a >= 1000 {
        1
    } else {
        0
    };
    assert(s[k] == digit(a as int / 100 % 10) && t[k] == digit(b as int / 100 % 10));
    assert(s[k + 1] == digit(a as int / 10 % 10) && t[k + 1] == digit(b as int / 10 % 10));
    assert(s[k + 2] == digit(a as int % 10) && t[k + 2] == digit(b as int % 10));
    assert(k == 1 ==> s[0] == digit(a as int / 1000) && t[0] == digit(b as int / 1000));
    lemma_digit_injective(a as int / 100 % 10, b as int / 100 % 10);
    lemma_digit_injective(a as int / 10 % 10, b as int / 10 % 10);
    lemma_digit_injective(a as int % 10, b as int % 10);
    if k == 1 {
        lemma_digit_injective(a as int / 1000, b as int / 1000);
    }
    lemma_decimal_digits(a as int);
    lemma_decimal_digits(b as int);
}

} // verus!

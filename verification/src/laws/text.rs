//! Laws of the short texts and of the track names.

use vstd::prelude::*;
use vstd::utf8::*;

use crate::text::{fmt_bat_short, fmt_batt, fmt_date_fr, fmt_mv};
use crate::tracks::{
    track_entry, trimmed, trimmed_back, trimmed_front, white_space,
};

verus! {

/// The number that a text spells in decimal notation.
pub open spec fn number(text: Seq<char>) -> int
    decreases text.len(),
{
    if text.len() == 0 {
        0
    } else {
        10 * number(text.drop_last()) + (text.last() as int - '0' as int)
    }
}

pub open spec fn is_digit(c: char) -> bool {
    '0' <= c <= '9'
}

/// A text of decimal digits without a needless zero in front.
pub open spec fn plain_number(text: Seq<char>) -> bool {
    &&& text.len() > 0
    &&& forall|i: int| 0 <= i < text.len() ==> is_digit(#[trigger] text[i])
    &&& text.len() > 1 ==> text[0] != '0'
}

/// A charge in percent, no more than 100, with a percent sign behind it.
pub open spec fn spells_percent(text: Seq<char>, pct: int) -> bool {
    &&& text.len() > 1
    &&& text.last() == '%'
    &&& plain_number(text.drop_last())
    &&& number(text.drop_last()) == (if pct > 100 {
        100
    } else {
        pct
    })
}

/// A charge in percent, with the four characters ` CHG` behind it while charging.
pub open spec fn spells_battery(text: Seq<char>, pct: int, charging: bool) -> bool {
    if charging {
        &&& text.len() > 4
        &&& text.skip(text.len() - 4) == seq![' ', 'C', 'H', 'G']
        &&& spells_percent(text.take(text.len() - 4), pct)
    } else {
        spells_percent(text, pct)
    }
}

/// Day, month and year of the century, two characters each, as `DD/MM/20YY`. The second character
/// of each is a digit, and the two spell the number.
pub open spec fn spells_date(text: Seq<char>, d: int, m: int, y: int) -> bool {
    &&& text.len() == 10
    &&& number(text.subrange(0, 2)) == d && is_digit(text[1])
    &&& text[2] == '/'
    &&& number(text.subrange(3, 5)) == m && is_digit(text[4])
    &&& text[5] == '/' && text[6] == '2' && text[7] == '0'
    &&& number(text.subrange(8, 10)) == y && is_digit(text[9])
}

/// The buffer begins with the text, one byte for each character, and the rest of it is as before.
pub open spec fn holds_text(before: Seq<u8>, after: Seq<u8>, text: Seq<char>) -> bool {
    &&& text.len() <= after.len() == before.len()
    &&& forall|i: int| 0 <= i < text.len() ==> #[trigger] after[i] as int == text[i] as int
    &&& forall|i: int| text.len() <= i < after.len() ==> #[trigger] after[i] == before[i]
}

/// The date is spelled with its digits in their places, and written to the front of the buffer.
pub proof fn law_date_is_spelled(buf: &mut [u8; 12], d: u8, m: u8, y: u8, s: &str)
    requires
        call_ensures(fmt_date_fr, (buf, d, m, y), s),
    ensures
        spells_date(s@, d as int, m as int, y as int),
        holds_text(old(buf)@, final(buf)@, s@),
{
    reveal_with_fuel(number, 3);
}

/// The battery text spells the charge, and says whether the battery charges.
pub proof fn law_battery_is_spelled(buf: &mut [u8; 16], pct: u8, chg: bool, s: &str)
    requires
        call_ensures(fmt_batt, (buf, pct, chg), s),
    ensures
        spells_battery(s@, pct as int, chg),
        holds_text(old(buf)@, final(buf)@, s@),
{
    reveal_with_fuel(number, 4);
    if chg {
        assert(s@.skip(s@.len() - 4) =~= seq![' ', 'C', 'H', 'G']);
    }
}

/// The short battery text spells the charge.
pub proof fn law_charge_is_spelled(buf: &mut [u8; 4], pct: u8, s: &str)
    requires
        call_ensures(fmt_bat_short, (buf, pct), s),
    ensures
        spells_percent(s@, pct as int),
        holds_text(old(buf)@, final(buf)@, s@),
{
    reveal_with_fuel(number, 4);
}

/// A voltage is spelled in millivolts with `mV` behind it, in three digits or, from 1000 on, with
/// all the thousands in one character in front of them.
pub proof fn law_voltage_is_spelled(buf: &mut [u8; 12], mv: u16, s: &str)
    requires
        call_ensures(fmt_mv, (buf, mv), s),
    ensures
        s@.len() == (if mv < 1000 {
            5int
        } else {
            6
        }),
        s@.skip(s@.len() - 2) == seq!['m', 'V'],
        number(s@.take(s@.len() - 2)) == mv,
        forall|i: int| s@.len() - 5 <= i < s@.len() - 2 ==> is_digit(#[trigger] s@[i]),
        holds_text(old(buf)@, final(buf)@, s@),
{
    reveal_with_fuel(number, 5);
    let t = s@.take(s@.len() - 2);
    assert(s@.skip(s@.len() - 2) =~= seq!['m', 'V']);
    let a = t.drop_last();
    let b = a.drop_last();
    let c = b.drop_last();
    let n = mv as int;
    assert(n / 100 == n / 10 / 10);
    assert(n / 1000 == n / 100 / 10);
    assert(t.last() as int == 48 + n % 10);
    assert(a.last() as int == 48 + n / 10 % 10);
    assert(b.last() as int == 48 + n / 100 % 10);
    if mv >= 1000 {
        assert(c.last() as int == 48 + n / 1000);
        assert(c.drop_last().len() == 0);
    } else {
        assert(c.len() == 0);
    }
}

/// White space at both ends and a core that neither begins nor ends with it.
pub open spec fn padded(
    text: Seq<char>,
    front: Seq<char>,
    core: Seq<char>,
    back: Seq<char>,
) -> bool {
    &&& text == front + core + back
    &&& forall|i: int| 0 <= i < front.len() ==> white_space(#[trigger] front[i])
    &&& forall|i: int| 0 <= i < back.len() ==> white_space(#[trigger] back[i])
    &&& core.len() > 0 ==> !white_space(core[0]) && !white_space(core.last())
}

proof fn lemma_trim_front(front: Seq<char>, rest: Seq<char>)
    requires
        forall|i: int| 0 <= i < front.len() ==> white_space(#[trigger] front[i]),
        rest.len() > 0 ==> !white_space(rest[0]),
    ensures
        trimmed_front(front + rest) == rest,
    decreases front.len(),
{
    if front.len() > 0 {
        let t = front + rest;
        assert(white_space(t[0]));
        assert(t.drop_first() =~= front.drop_first() + rest);
        lemma_trim_front(front.drop_first(), rest);
    } else {
        assert(front + rest =~= rest);
    }
}

proof fn lemma_trim_back(rest: Seq<char>, back: Seq<char>)
    requires
        forall|i: int| 0 <= i < back.len() ==> white_space(#[trigger] back[i]),
        rest.len() > 0 ==> !white_space(rest.last()),
    ensures
        trimmed_back(rest + back) == rest,
    decreases back.len(),
{
    if back.len() > 0 {
        let t = rest + back;
        assert(white_space(t.last()));
        assert(t.drop_last() =~= rest + back.drop_last());
        lemma_trim_back(rest, back.drop_last());
    } else {
        assert(rest + back =~= rest);
    }
}

proof fn lemma_trimmed(text: Seq<char>, front: Seq<char>, core: Seq<char>, back: Seq<char>)
    requires
        padded(text, front, core, back),
    ensures
        trimmed(text) == core,
{
    if core.len() > 0 {
        assert(text =~= front + (core + back));
        lemma_trim_front(front, core + back);
        lemma_trim_back(core, back);
    } else {
        assert(text =~= (front + back) + core);
        lemma_trim_front(front + back, core);
        assert(core =~= core + Seq::<char>::empty());
        lemma_trim_back(core, Seq::<char>::empty());
    }
}

/// A file is listed under its base name and its extension with a dot between them, without the
/// white space that either is padded with. A base name that is not UTF-8 is listed as a question
/// mark and such an extension as nothing. A directory is not listed.
pub proof fn law_track_name(
    is_directory: bool,
    base: &[u8],
    extension: &[u8],
    name: Option<String>,
    base_text: (Seq<char>, Seq<char>, Seq<char>),
    extension_text: (Seq<char>, Seq<char>, Seq<char>),
)
    requires
        call_ensures(track_entry, (is_directory, base, extension), name),
        valid_utf8(base@) ==> padded(
            decode_utf8(base@),
            base_text.0,
            base_text.1,
            base_text.2,
        ),
        valid_utf8(extension@) ==> padded(
            decode_utf8(extension@),
            extension_text.0,
            extension_text.1,
            extension_text.2,
        ),
    ensures
        name is None <==> is_directory,
        name matches Some(text) ==> text@ == (if valid_utf8(base@) {
            base_text.1
        } else {
            seq!['?']
        }) + seq!['.'] + (if valid_utf8(extension@) {
            extension_text.1
        } else {
            Seq::empty()
        }),
{
    let none = Seq::<char>::empty();
    if valid_utf8(base@) {
        lemma_trimmed(decode_utf8(base@), base_text.0, base_text.1, base_text.2);
    } else {
        assert(none + seq!['?'] + none =~= seq!['?']);
        lemma_trimmed(seq!['?'], none, seq!['?'], none);
    }
    if valid_utf8(extension@) {
        lemma_trimmed(
            decode_utf8(extension@),
            extension_text.0,
            extension_text.1,
            extension_text.2,
        );
    } else {
        assert(none + none + none =~= none);
        lemma_trimmed(none, none, none, none);
    }
}

} // verus!

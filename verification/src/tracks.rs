//! Names of the music files that are listed from the memory card.

use vstd::prelude::*;
use vstd::string::*;
use vstd::utf8::*;

verus! {

broadcast use vstd::string::group_string_axioms;

/// The characters with the Unicode property White_Space.
pub open spec fn white_space(c: char) -> bool {
    let u = c as int;
    ||| 0x9 <= u <= 0xD
    ||| u == 0x20
    ||| u == 0x85
    ||| u == 0xA0
    ||| u == 0x1680
    ||| 0x2000 <= u <= 0x200A
    ||| u == 0x2028
    ||| u == 0x2029
    ||| u == 0x202F
    ||| u == 0x205F
    ||| u == 0x3000
}

/// `t` without the white space at its start.
pub open spec fn trimmed_front(t: Seq<char>) -> Seq<char>
    decreases t.len(),
{
    if t.len() > 0 && white_space(t[0]) {
        trimmed_front(t.drop_first())
    } else {
        t
    }
}

/// `t` without the white space at its end.
pub open spec fn trimmed_back(t: Seq<char>) -> Seq<char>
    decreases t.len(),
{
    if t.len() > 0 && white_space(t.last()) {
        trimmed_back(t.drop_last())
    } else {
        t
    }
}

/// `t` without the white space at either end.
pub open spec fn trimmed(t: Seq<char>) -> Seq<char> {
    trimmed_back(trimmed_front(t))
}

/// `str::trim`: the text without leading and trailing white space.
pub assume_specification[ str::trim ](s: &str) -> (res: &str)
    ensures
        res@ == trimmed(s@),
;

/// The text that `bytes` encode, or `fallback` where they are not UTF-8.
pub open spec fn decoded_or(bytes: Seq<u8>, fallback: Seq<char>) -> Seq<char> {
    if valid_utf8(bytes) {
        decode_utf8(bytes)
    } else {
        fallback
    }
}

/// The name under which a file is listed: base name and extension, trimmed, with a dot between.
pub open spec fn track_text(base: Seq<u8>, extension: Seq<u8>) -> Seq<char> {
    trimmed(decoded_or(base, seq!['?'])) + seq!['.'] + trimmed(
        decoded_or(extension, Seq::empty()),
    )
}

fn decode_or<'a>(bytes: &'a [u8], fallback: &'a str) -> (s: &'a str)
    ensures
        s@ == decoded_or(bytes@, fallback@),
{
    match core::str::from_utf8(bytes) {
        Ok(s) => {
            proof {
                encode_utf8_decode_utf8(s@);
            }
            s
        },
        Err(_) => fallback,
    }
}

/// What a directory entry adds to the list of tracks: its name, or nothing for a directory.
pub fn track_entry(is_directory: bool, base: &[u8], extension: &[u8]) -> (name: Option<String>)
    ensures
        is_directory ==> name is None,
        !is_directory ==> name is Some && name->0@ == track_text(base@, extension@),
{
    if is_directory {
        return None;
    }
    proof {
        reveal_strlit("?");
        reveal_strlit("");
        reveal_strlit(".");
        assert("?"@ =~= seq!['?']);
        assert(""@ =~= Seq::<char>::empty());
        assert("."@ =~= seq!['.']);
    }
    let mut full: String = decode_or(base, "?").trim().to_owned();
    full.append(".");
    full.append(decode_or(extension, "").trim());
    Some(full)
}

} // verus!

//! Country flags of the places in a round, as emoji.
use vstd::prelude::*;

verus! {

/// Distance from an ASCII capital letter to its regional indicator symbol.
pub const REGIONAL_OFFSET: u32 = 127397;

/// What `str::to_uppercase` makes of a string.
pub uninterp spec fn upper_of(s: Seq<char>) -> Seq<char>;

/// The text of the emoji that `emojis::get` finds for a string, if any.
pub uninterp spec fn emoji_of(s: Seq<char>) -> Option<Seq<char>>;

pub open spec fn opt_view(o: Option<String>) -> Option<Seq<char>> {
    match o {
        Some(s) => Some(s@),
        None => None,
    }
}

/// Whether `v` is the code of a Unicode scalar value.
pub open spec fn is_scalar(v: int) -> bool {
    (0 <= v < 0xD800) || (0xE000 <= v <= 0x10FFFF)
}

/// The code point of `c`.
pub open spec fn code_of(c: char) -> int {
    c as int
}

/// The character `REGIONAL_OFFSET` code points after `c`.
pub open spec fn regional(c: char) -> char {
    choose|d: char| #[trigger] code_of(d) == c as int + REGIONAL_OFFSET
}

/// Whether every character of `s` has a character `REGIONAL_OFFSET` after it.
pub open spec fn has_flag(s: Seq<char>) -> bool {
    forall|i: int| 0 <= i < s.len() ==> is_scalar(#[trigger] s[i] as int + REGIONAL_OFFSET)
}

/// Each character of `s` moved by `REGIONAL_OFFSET`; none if one of them
/// would leave the Unicode scalar values.
pub open spec fn flag_of(s: Seq<char>) -> Option<Seq<char>> {
    if has_flag(s) {
        Some(s.map_values(|c: char| regional(c)))
    } else {
        None
    }
}

/// The emoji shown for a country code: its flag when the emoji table knows
/// it, else the pinched-fingers emoji.
pub open spec fn flag_or_fallback(code: Seq<char>) -> Option<Seq<char>> {
    match flag_of(upper_of(code)) {
        Some(f) => if emoji_of(f) is Some {
            emoji_of(f)
        } else {
            emoji_of("🤌"@)
        },
        None => emoji_of("🤌"@),
    }
}

/// Relies on `str::to_uppercase`: the upper-case form of the string, which
/// depends on its characters alone.
#[verifier::external_body]
fn to_upper(s: &str) -> (r: String)
    ensures
        r@ == upper_of(s@),
{
    s.to_uppercase()
}

/// Relies on `char::from_u32`: the character with code `v`, if `v` is a
/// Unicode scalar value.
#[verifier::external_body]
fn char_from_u32(v: u32) -> (r: Option<char>)
    ensures
        r is Some <==> is_scalar(v as int),
        r matches Some(c) ==> c as int == v,
{
    char::from_u32(v)
}

/// Relies on `String::push`: appends one character.
#[verifier::external_body]
pub(crate) fn push_char(s: &mut String, c: char)
    ensures
        final(s)@ == old(s)@.push(c),
{
    s.push(c)
}

/// Relies on `emojis::get`, which looks the string up in the crate's emoji
/// table, and on `Emoji::as_str` for the text of the emoji found.
#[verifier::external_body]
fn lookup_emoji(s: &str) -> (r: Option<String>)
    ensures
        opt_view(r) == emoji_of(s@),
{
    emojis::get(s).map(|e| e.as_str().to_string())
}

/// The flag of an upper-case country code: each letter moved to its
/// regional indicator symbol.
pub fn flag_from_upper(upper: &str) -> (r: Option<String>)
    ensures
        opt_view(r) == flag_of(upper@),
{
    let n = upper.unicode_len();
    let mut out = String::new();
    let mut i: usize = 0;
    while i < n
        invariant
            n == upper@.len(),
            i <= n,
            forall|j: int| 0 <= j < i ==> is_scalar(#[trigger] upper@[j] as int + REGIONAL_OFFSET),
            out@ == upper@.subrange(0, i as int).map_values(|c: char| regional(c)),
        decreases n - i,
    {
        let c = upper.get_char(i);
        match char_from_u32(c as u32 + REGIONAL_OFFSET) {
            Some(d) => {
                assert(code_of(d) == c as int + REGIONAL_OFFSET);
                assert(regional(c) == d);
                push_char(&mut out, d);
                assert(upper@.subrange(0, i + 1).map_values(|c: char| regional(c)) == upper@.subrange(
                    0,
                    i as int,
                ).map_values(|c: char| regional(c)).push(regional(c)));
            },
            None => {
                assert(!has_flag(upper@));
                return None;
            },
        }
        i = i + 1;
    }
    assert(upper@.subrange(0, n as int) == upper@);
    Some(out)
}

/// The flag of a country code in any case.
pub fn get_flag_emoji(country_code: &str) -> (r: Option<String>)
    ensures
        opt_view(r) == flag_of(upper_of(country_code@)),
{
    let upper = to_upper(country_code);
    flag_from_upper(upper.as_str())
}

/// The emoji shown beside a place: the flag of its country code, or the
/// pinched-fingers emoji where the code gives no known flag.
pub fn get_flag_from_country_code(country_code: String) -> (r: Option<String>)
    ensures
        opt_view(r) == flag_or_fallback(country_code@),
{
    match get_flag_emoji(country_code.as_str()) {
        Some(flag) => match lookup_emoji(flag.as_str()) {
            Some(e) => Some(e),
            None => lookup_emoji("🤌"),
        },
        None => lookup_emoji("🤌"),
    }
}

} // verus!

//! Text operations of `std` that the normalizers use, with their contracts.
use vstd::prelude::*;
use vstd::utf8::is_ascii_chars;
use crate::json::decimal;

verus! {

/// What `str::to_lowercase` returns for a text (Unicode lower-casing, which
/// may change the length of the text).
pub uninterp spec fn lowercase(s: Seq<char>) -> Seq<char>;

/// An ASCII character in lower case: `A` to `Z` become `a` to `z`, every
/// other character stays.
pub open spec fn ascii_lower_char(c: char) -> char {
    if 'A' <= c && c <= 'Z' {
        ((c as u32) + 32) as char
    } else {
        c
    }
}

/// An ASCII text in lower case, character by character.
pub open spec fn ascii_lowercase(s: Seq<char>) -> Seq<char> {
    s.map_values(|c: char| ascii_lower_char(c))
}

/// A text in lower case: by the ASCII rule where the text is ASCII, else
/// as `str::to_lowercase` does it.
pub open spec fn lowercased(s: Seq<char>) -> Seq<char> {
    if is_ascii_chars(s) {
        ascii_lowercase(s)
    } else {
        lowercase(s)
    }
}

/// Lower-casing an ASCII text once is enough: the result is ASCII and stays
/// as it is when lower-cased again, so ASCII names that differ only in case
/// are lower-cased alike.
pub proof fn ascii_lowercasing_is_idempotent(s: Seq<char>)
    requires
        is_ascii_chars(s),
    ensures
        is_ascii_chars(ascii_lowercase(s)),
        lowercased(ascii_lowercase(s)) == lowercased(s),
{
    let t = ascii_lowercase(s);
    assert forall|i| 0 <= i < t.len() implies '\0' <= #[trigger] t[i] <= '\u{7f}' by {
        assert('\0' <= s[i] <= '\u{7f}');
    }
    assert(ascii_lowercase(t) =~= t);
}

/// A text without the letters `A` to `Z` is its own lower case.
pub proof fn lowercase_text_is_unchanged(s: Seq<char>)
    requires
        is_ascii_chars(s),
        forall|i| 0 <= i < s.len() ==> !('A' <= #[trigger] s[i] && s[i] <= 'Z'),
    ensures
        lowercased(s) == s,
{
    assert(ascii_lowercase(s) =~= s);
}

/// `==` on `str`: equal exactly when the two texts hold the same characters.
#[verifier::external_body]
pub(crate) fn str_eq(a: &str, b: &str) -> (r: bool)
    ensures
        r == (a@ == b@),
{
    a == b
}

/// `str::to_lowercase`: Unicode lower-casing, which on ASCII text maps `A`
/// to `Z` to `a` to `z` and keeps every other character.
#[verifier::external_body]
pub(crate) fn to_lowercase(s: &str) -> (r: String)
    ensures
        r@ == lowercase(s@),
        is_ascii_chars(s@) ==> r@ == ascii_lowercase(s@),
{
    s.to_lowercase()
}

/// `u64::to_string`: the decimal text of the number.
#[verifier::external_body]
pub(crate) fn u64_to_decimal(n: u64) -> (r: String)
    ensures
        r@ == decimal(n as nat),
{
    n.to_string()
}

/// The text `s`, or `default` where there is none.
pub open spec fn text_or(s: Option<Seq<char>>, default: Seq<char>) -> Seq<char> {
    match s {
        Some(t) => t,
        None => default,
    }
}

/// The first of two optional texts that is present.
pub open spec fn first_text(a: Option<Seq<char>>, b: Option<Seq<char>>) -> Option<Seq<char>> {
    match a {
        Some(t) => Some(t),
        None => b,
    }
}

/// The view of an optional borrowed text.
pub open spec fn opt_text(s: Option<&str>) -> Option<Seq<char>> {
    match s {
        Some(t) => Some(t@),
        None => None,
    }
}

/// An owned copy of `s`, or of `default` where `s` is absent.
pub(crate) fn owned_or(s: Option<&str>, default: &str) -> (r: String)
    ensures
        r@ == text_or(opt_text(s), default@),
{
    match s {
        Some(t) => t.to_owned(),
        None => default.to_owned(),
    }
}

/// The first of two optional texts that is present.
pub(crate) fn first_of<'a>(a: Option<&'a str>, b: Option<&'a str>) -> (r: Option<&'a str>)
    ensures
        r == (match a {
            Some(t) => Some(t),
            None => b,
        }),
{
    match a {
        Some(t) => Some(t),
        None => b,
    }
}

} // verus!

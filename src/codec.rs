//! Text and byte conversions used by the worker: decimal rendering, base64 and
//! UTF-8 decoding, prefix tests and escape-sequence removal.
use vstd::prelude::*;
use vstd::utf8::{decode_utf8, valid_utf8};
use base64::Engine;

verus! {

/// The decimal digit character for `d` (`d < 10`).
pub open spec fn digit_char(d: nat) -> char {
    if d == 0 {
        '0'
    } else if d == 1 {
        '1'
    } else if d == 2 {
        '2'
    } else if d == 3 {
        '3'
    } else if d == 4 {
        '4'
    } else if d == 5 {
        '5'
    } else if d == 6 {
        '6'
    } else if d == 7 {
        '7'
    } else if d == 8 {
        '8'
    } else {
        '9'
    }
}

/// The decimal notation of `n`, without sign or leading zeros.
pub open spec fn decimal(n: nat) -> Seq<char>
    decreases n,
{
    if n < 10 {
        seq![digit_char(n)]
    } else {
        decimal(n / 10).push(digit_char(n % 10))
    }
}

/// What the standard base64 engine (padded, `+` and `/`) decodes `s` to, or
/// `None` where `s` is no valid input for it.
pub uninterp spec fn standard_base64_decoded(s: Seq<char>) -> Option<Seq<u8>>;

/// The characters left of `line` once every match of `ESC [ digits m` has been
/// removed.
pub uninterp spec fn escapes_removed(line: Seq<char>) -> Seq<char>;

/// Relies on `u64`'s `Display` through `ToString::to_string`: plain decimal
/// notation.
#[verifier::external_body]
pub(crate) fn decimal_text(n: u64) -> (r: String)
    ensures
        r@ == decimal(n as nat),
{
    n.to_string()
}

/// Relies on `str::starts_with` with a string pattern: true exactly when
/// `prefix` is a prefix of `s`.
#[verifier::external_body]
pub(crate) fn has_prefix(s: &str, prefix: &str) -> (r: bool)
    ensures
        r == prefix@.is_prefix_of(s@),
{
    s.starts_with(prefix)
}

/// Relies on `base64::engine::general_purpose::STANDARD` and its
/// `Engine::decode`, which returns an error rather than panicking on input
/// that is not padded standard base64.
#[verifier::external_body]
pub(crate) fn decode_base64(s: &str) -> (r: Option<Vec<u8>>)
    ensures
        match r {
            Some(b) => standard_base64_decoded(s@) == Some(b@),
            None => standard_base64_decoded(s@) is None,
        },
{
    base64::engine::general_purpose::STANDARD.decode(s).ok()
}

/// Relies on `String::from_utf8`: it succeeds exactly on valid UTF-8 and then
/// holds the decoded characters.
#[verifier::external_body]
pub(crate) fn utf8_text(b: Vec<u8>) -> (r: Option<String>)
    ensures
        r is Some <==> valid_utf8(b@),
        r matches Some(s) ==> s@ == decode_utf8(b@),
{
    String::from_utf8(b).ok()
}

/// Relies on `regex::Regex::new` for the pattern `\x1b\[\d*m` (a constant,
/// valid pattern) and on `Regex::replace_all` with an empty replacement, which
/// hands back the input unchanged where nothing matches; every match starts
/// with the escape character.
#[verifier::external_body]
pub(crate) fn remove_escapes(line: &str) -> (r: String)
    ensures
        r@ == escapes_removed(line@),
        !line@.contains('\u{1b}') ==> r@ == line@,
{
    let pattern = regex::Regex::new(r"\x1b\[\d*m").unwrap();
    pattern.replace_all(line, "").into_owned()
}

} // verus!

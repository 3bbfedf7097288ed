//! The calls into the `http`, `uuid` and `chrono` crates. Nothing here is proved: each
//! contract is what the crate's source shows of the function.

use crate::text::digit_char;
use vstd::prelude::*;

verus! {

/// The error of `http`'s URI parser.
#[verifier::external_type_specification]
#[verifier::external_body]
pub struct ExInvalidUri(http::uri::InvalidUri);

/// Names whether `http::Uri`'s parser accepts a text.
pub uninterp spec fn uri_accepts(text: Seq<char>) -> bool;

/// Names the value that `uuid::Uuid::parse_str` reads from a text, `None`
/// where it refuses the text.
pub uninterp spec fn uuid_of(text: Seq<char>) -> Option<u128>;

/// The character of a hexadecimal digit, in lower case.
pub open spec fn hex_char(d: nat) -> char {
    if d < 10 {
        digit_char(d)
    } else if d == 10 {
        'a'
    } else if d == 11 {
        'b'
    } else if d == 12 {
        'c'
    } else if d == 13 {
        'd'
    } else if d == 14 {
        'e'
    } else {
        'f'
    }
}

/// The last `digits` hexadecimal digits of `value`, the most significant
/// first.
pub open spec fn hex_text(value: nat, digits: nat) -> Seq<char>
    decreases digits,
{
    if digits == 0 {
        Seq::<char>::empty()
    } else {
        hex_text(value / 16, (digits - 1) as nat) + seq![hex_char(value % 16)]
    }
}

/// The text that `uuid::Uuid` displays a value as: its 32 hexadecimal
/// digits in lower case, the most significant first, in groups of 8, 4, 4, 4
/// and 12 with a hyphen between the groups.
pub open spec fn uuid_text_of(value: u128) -> Seq<char> {
    let v = value as nat;
    hex_text(v / 0x1_0000_0000_0000_0000_0000_0000, 8) + seq!['-'] + hex_text(
        v / 0x1_0000_0000_0000_0000_0000,
        4,
    ) + seq!['-'] + hex_text(v / 0x1_0000_0000_0000_0000, 4) + seq!['-'] + hex_text(
        v / 0x1_0000_0000_0000,
        4,
    ) + seq!['-'] + hex_text(v, 12)
}

/// Calls `http::Uri`'s `FromStr::from_str`, which parses the bytes of the
/// text and reads nothing else: it succeeds exactly on the texts that the
/// parser accepts.
#[verifier::external_body]
pub(crate) fn check_uri(text: &str) -> (r: Result<(), http::uri::InvalidUri>)
    ensures
        r is Ok == uri_accepts(text@),
{
    text.parse::<http::Uri>().map(|_| ())
}

/// Calls `ToString::to_string` on the error of `http`'s URI parser: the
/// parser's description of what it refused.
#[verifier::external_body]
pub(crate) fn describe_invalid_uri(e: &http::uri::InvalidUri) -> (text: String) {
    e.to_string()
}

/// Calls `uuid::Uuid::parse_str` and `Uuid::as_u128`: the 128-bit value
/// that the parser reads from the text, a function of the text alone.
#[verifier::external_body]
pub(crate) fn parse_uuid(text: &str) -> (r: Option<u128>)
    ensures
        r == uuid_of(text@),
{
    match uuid::Uuid::parse_str(text) {
        Ok(u) => Some(u.as_u128()),
        Err(_) => None,
    }
}

/// Calls `uuid::Uuid::from_u128` and `ToString::to_string`: the hyphenated
/// lower-case text of the value, as `uuid_text_of` spells it out.
#[verifier::external_body]
pub(crate) fn uuid_text(value: u128) -> (text: String)
    ensures
        text@ == uuid_text_of(value),
{
    uuid::Uuid::from_u128(value).to_string()
}

/// Calls `uuid::Uuid::new_v4` and `Uuid::as_u128`: a random identifier. Of
/// every outcome only the version and variant bits are fixed: version 4,
/// variant `10`.
#[verifier::external_body]
pub(crate) fn fresh_uuid() -> (value: u128)
    ensures
        value & 0x0000_0000_0000_F000_C000_0000_0000_0000u128
            == 0x0000_0000_0000_4000_8000_0000_0000_0000u128,
{
    uuid::Uuid::new_v4().as_u128()
}

/// Names the Unix time, in seconds, that `chrono` reads from an RFC 3339
/// text, `None` where it refuses the text.
pub uninterp spec fn rfc3339_seconds_of(text: Seq<char>) -> Option<i64>;

/// Calls `chrono::DateTime::parse_from_rfc3339` and `DateTime::timestamp`:
/// the seconds since the epoch of the instant that the text names with its
/// own offset, a function of the text alone.
#[verifier::external_body]
pub(crate) fn rfc3339_seconds(text: &str) -> (r: Option<i64>)
    ensures
        r == rfc3339_seconds_of(text@),
{
    match chrono::DateTime::parse_from_rfc3339(text) {
        Ok(t) => Some(t.timestamp()),
        Err(_) => None,
    }
}

} // verus!

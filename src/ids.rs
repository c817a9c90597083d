use vstd::arithmetic::power::pow;
use vstd::prelude::*;

use activitystreams::primitives::XsdAnyUri;
use uuid::Uuid;

verus! {

/// The serialised form of the IRI that a text parses to, if it parses.
pub uninterp spec fn parsed_iri(s: Seq<char>) -> Option<Seq<char>>;

/// The 128-bit value of the UUID that a text parses to, if it parses.
pub uninterp spec fn parsed_uuid(s: Seq<char>) -> Option<u128>;

/// Relies on `XsdAnyUri`'s `FromStr` (a `url::Url` parse) and on
/// `XsdAnyUri::as_str`: the parse succeeds or fails on the text alone, and
/// the serialisation of the parsed IRI depends on the text alone.
#[verifier::external_body]
pub(crate) fn parse_iri(s: &str) -> (r: Option<String>)
    ensures
        r.is_some() == parsed_iri(s@).is_some(),
        r matches Some(u) ==> parsed_iri(s@) == Some(u@),
{
    match s.parse::<XsdAnyUri>() {
        Ok(u) => Some(u.as_str().to_owned()),
        Err(_) => None,
    }
}

/// Relies on `uuid::Uuid::parse_str` and `Uuid::as_u128`: the parse succeeds
/// or fails on the text alone and yields the same 128 bits for the same text.
#[verifier::external_body]
pub(crate) fn parse_uuid(s: &str) -> (r: Option<u128>)
    ensures
        r.is_some() == parsed_uuid(s@).is_some(),
        r matches Some(u) ==> parsed_uuid(s@) == Some(u),
{
    match Uuid::parse_str(s) {
        Ok(u) => Some(u.as_u128()),
        Err(_) => None,
    }
}

/// A hexadecimal digit in lower case.
pub open spec fn hex_char(n: int) -> char {
    seq!['0', '1', '2', '3', '4', '5', '6', '7', '8', '9', 'a', 'b', 'c', 'd', 'e', 'f'][n]
}

/// Digit `k` of the 32 hexadecimal digits of `id`, the most significant first.
pub open spec fn nibble(id: u128, k: int) -> int {
    (id as int / pow(16, (31 - k) as nat)) % 16
}

/// Which of the 32 digits stands at position `i` of the hyphenated text.
pub open spec fn digit_at(i: int) -> int {
    if i < 8 {
        i
    } else if i < 13 {
        i - 1
    } else if i < 18 {
        i - 2
    } else if i < 23 {
        i - 3
    } else {
        i - 4
    }
}

/// The lower-case hyphenated text of a UUID: 32 hexadecimal digits in groups
/// of 8, 4, 4, 4 and 12, joined by `-`.
pub open spec fn uuid_text(id: u128) -> Seq<char> {
    Seq::new(
        36,
        |i: int|
            if i == 8 || i == 13 || i == 18 || i == 23 {
                '-'
            } else {
                hex_char(nibble(id, digit_at(i)))
            },
    )
}

/// Relies on `uuid::Uuid::from_u128`, which keeps the value's bytes in
/// big-endian order, and on the `Display` of `Uuid`, which writes the
/// lower-case hyphenated form.
#[verifier::external_body]
pub(crate) fn format_uuid(id: u128) -> (r: String)
    ensures
        r@ == uuid_text(id),
{
    Uuid::from_u128(id).to_string()
}

/// The host of the IRI that a text parses to, if it parses and has one.
pub uninterp spec fn iri_host(s: Seq<char>) -> Option<Seq<char>>;

/// Relies on `XsdAnyUri`'s `FromStr` (a `url::Url` parse) and on
/// `url::Url::host_str`: the host depends on the text alone.
#[verifier::external_body]
pub(crate) fn host_of(s: &str) -> (r: Option<String>)
    ensures
        r.is_some() == iri_host(s@).is_some(),
        r matches Some(h) ==> iri_host(s@) == Some(h@),
{
    match s.parse::<XsdAnyUri>() {
        Ok(u) => u.as_url().host_str().map(|h| h.to_owned()),
        Err(_) => None,
    }
}

} // verus!

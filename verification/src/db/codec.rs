use std::collections::HashMap;
use vstd::arithmetic::power::pow;
use vstd::prelude::*;

verus! {

/// The characters of each string of a sequence.
pub open spec fn text_views(s: Seq<String>) -> Seq<Seq<char>> {
    s.map_values(|x: String| x@)
}

/// The lower-case hexadecimal digit for a value `d` in `0..16`.
pub open spec fn hex_digit(d: int) -> char {
    if d < 10 {
        (48 + d) as char
    } else {
        (87 + d) as char
    }
}

/// The value of the `k`-th hexadecimal digit of `id`, counting from the most
/// significant (`k` in `0..32`).
pub open spec fn uuid_digit(id: u128, k: int) -> int {
    (id as int / pow(16, (31 - k) as nat)) % 16
}

/// Which of the 32 digits stands at position `i` of the hyphenated text
/// (positions 8, 13, 18 and 23 hold the hyphens).
pub open spec fn digit_at(i: int) -> int {
    if i < 8 {
        i
    } else if i < 13 {
        i - 1
    } else if i < 18 {
        i - 2
    } else if i < 23 {
        i - 3
    } else {
        i - 4
    }
}

/// The text form that `uuid::Uuid`'s `Display` gives the UUID with 128-bit
/// value `id`: its 32 hexadecimal digits, most significant first, in lower
/// case, grouped 8-4-4-4-12 by hyphens.
pub open spec fn uuid_text(id: u128) -> Seq<char> {
    Seq::new(
        36,
        |i: int|
            if i == 8 || i == 13 || i == 18 || i == 23 {
                '-'
            } else {
                hex_digit(uuid_digit(id, digit_at(i)))
            },
    )
}

/// What `uuid::Uuid::parse_str` makes of a text: the 128-bit value of the
/// UUID, or `None` when it rejects the text.
pub uninterp spec fn uuid_from_text(text: Seq<char>) -> Option<u128>;

/// What `serde_json::to_string` writes for a list of strings.
pub uninterp spec fn json_of_strings(items: Seq<Seq<char>>) -> Seq<char>;

/// What `serde_json::from_str::<Vec<String>>` reads from a text.
pub uninterp spec fn strings_from_json(text: Seq<char>) -> Option<Seq<Seq<char>>>;

/// What `serde_json::from_str::<HashMap<String, String>>` reads from a text.
pub uninterp spec fn metadata_from_json(text: Seq<char>) -> Option<Map<String, String>>;

/// The RFC 3339 text that chrono writes (`DateTime::to_rfc3339`) for the UTC
/// instant `secs` seconds and `nanos` nanoseconds after the Unix epoch, or
/// `None` when `DateTime::from_timestamp` refuses the pair.
pub uninterp spec fn rfc3339_of_instant(secs: i64, nanos: u32) -> Option<Seq<char>>;

/// What chrono reads from an RFC 3339 text (`DateTime::parse_from_rfc3339`):
/// the instant's seconds since the Unix epoch (`timestamp`) and the
/// nanoseconds past that second (`timestamp_subsec_nanos`).
pub uninterp spec fn instant_of_rfc3339(text: Seq<char>) -> Option<(i64, u32)>;

/// The first second of the year 0000, in seconds since the Unix epoch.
pub const FOUR_DIGIT_YEARS_START_SECS: i64 = -62_167_219_200;

/// The first second of the year 10000, in seconds since the Unix epoch.
pub const FOUR_DIGIT_YEARS_END_SECS: i64 = 253_402_300_800;

/// Whether the second `secs` falls in the years 0000 through 9999, the years
/// that RFC 3339 writes with its four-digit year field.
pub open spec fn in_four_digit_years(secs: int) -> bool {
    FOUR_DIGIT_YEARS_START_SECS <= secs < FOUR_DIGIT_YEARS_END_SECS
}

/// `uuid::Uuid::from_u128(id).to_string()`.
///
/// Stated: the text is `uuid_text(id)` (`Uuid::from_u128` takes the value
/// big-endian, and `Display` writes the hyphenated lower-case form), and
/// `Uuid::parse_str` reads it back to `id` (the uuid documentation: any
/// format this crate generates is accepted by `parse_str`).
#[verifier::external_body]
pub(crate) fn format_uuid(id: u128) -> (s: String)
    ensures
        s@ == uuid_text(id),
        uuid_from_text(s@) == Some(id),
{
    uuid::Uuid::from_u128(id).to_string()
}

/// `uuid::Uuid::parse_str(text)`, taken as the 128-bit value by
/// `Uuid::as_u128`; `None` when the text is rejected.
#[verifier::external_body]
pub(crate) fn parse_uuid(text: &str) -> (r: Option<u128>)
    ensures
        r == uuid_from_text(text@),
{
    match uuid::Uuid::parse_str(text) {
        Ok(u) => Some(u.as_u128()),
        Err(_) => None,
    }
}

/// `serde_json::to_string` of a list of strings (it cannot fail for this
/// type: strings always serialize).
///
/// Stated: the text is the one `json_of_strings` names, and
/// `serde_json::from_str` reads the same strings back from it.
#[verifier::external_body]
pub(crate) fn encode_strings(items: &Vec<String>) -> (s: String)
    ensures
        s@ == json_of_strings(text_views(items@)),
        strings_from_json(s@) == Some(text_views(items@)),
{
    serde_json::to_string(items).expect("a list of strings always serializes")
}

/// `serde_json::from_str::<Vec<String>>`; `None` when the text is not a
/// JSON array of strings.
#[verifier::external_body]
pub(crate) fn decode_strings(text: &str) -> (r: Option<Vec<String>>)
    ensures
        match r {
            Some(v) => strings_from_json(text@) == Some(text_views(v@)),
            None => strings_from_json(text@) is None,
        },
{
    match serde_json::from_str::<Vec<String>>(text) {
        Ok(v) => Some(v),
        Err(_) => None,
    }
}

/// `serde_json::to_string` of a string-to-string map (it cannot fail for
/// this type: string keys and values always serialize).
///
/// Stated: `serde_json::from_str` reads the same map back from the text.
/// Nothing more is stated of the text: serde writes the entries in the map's
/// own iteration order, which depends on the hasher seed of each map, so two
/// maps with the same entries may give different texts.
#[verifier::external_body]
pub(crate) fn encode_metadata(m: &HashMap<String, String>) -> (s: String)
    ensures
        metadata_from_json(s@) == Some(m@),
{
    serde_json::to_string(m).expect("a string map always serializes")
}

/// `serde_json::from_str::<HashMap<String, String>>`; `None` when the text
/// is not a JSON object of strings.
#[verifier::external_body]
pub(crate) fn decode_metadata(text: &str) -> (r: Option<HashMap<String, String>>)
    ensures
        match r {
            Some(m) => metadata_from_json(text@) == Some(m@),
            None => metadata_from_json(text@) is None,
        },
{
    match serde_json::from_str::<HashMap<String, String>>(text) {
        Ok(m) => Some(m),
        Err(_) => None,
    }
}

/// `chrono::DateTime::from_timestamp(secs, nanos)` written with
/// `DateTime::to_rfc3339`; `None` when `from_timestamp` refuses the pair.
///
/// Stated: the text is the one `rfc3339_of_instant` names; and for a second
/// of the years 0000 through 9999 and fewer than 10^9 nanoseconds, there is
/// a text, and `parse_from_rfc3339` reads back the same seconds and
/// nanoseconds. (`from_timestamp` refuses only seconds out of chrono's
/// range of dates and invalid nanoseconds; `to_rfc3339` writes the fraction
/// of the second with as many digits as it needs, so no nanosecond is lost.)
/// Nothing is stated of reading back a text of another year: `to_rfc3339`
/// writes such a year signed and with five or more digits, which
/// `parse_from_rfc3339`, taking a four-digit year, rejects.
#[verifier::external_body]
pub(crate) fn format_instant(secs: i64, nanos: u32) -> (r: Option<String>)
    ensures
        match r {
            Some(s) => rfc3339_of_instant(secs, nanos) == Some(s@) && (in_four_digit_years(secs as int)
                && nanos < 1_000_000_000 ==> instant_of_rfc3339(s@) == Some((secs, nanos))),
            None => rfc3339_of_instant(secs, nanos) is None && !(in_four_digit_years(secs as int) && nanos
                < 1_000_000_000),
        },
{
    match chrono::DateTime::from_timestamp(secs, nanos) {
        Some(d) => Some(d.to_rfc3339()),
        None => None,
    }
}

/// `chrono::DateTime::parse_from_rfc3339(text)`, taken as its seconds since
/// the Unix epoch (`timestamp`) and the nanoseconds past that second
/// (`timestamp_subsec_nanos`); `None` when the text is rejected.
#[verifier::external_body]
pub(crate) fn parse_instant(text: &str) -> (r: Option<(i64, u32)>)
    ensures
        r == instant_of_rfc3339(text@),
{
    match chrono::DateTime::parse_from_rfc3339(text) {
        Ok(d) => Some((d.timestamp(), d.timestamp_subsec_nanos())),
        Err(_) => None,
    }
}

} // verus!

//! The economic calendar request: its address, with both dates
//! percent-encoded, and what a failed request is reported as.
use vstd::prelude::*;
use crate::text::{concat2, concat3};

verus! {

/// Whether a byte is left as it is by percent-encoding: an ASCII letter or
/// digit, or one of `-`, `.`, `_`, `~`.
pub open spec fn unreserved(b: u8) -> bool {
    (48 <= b <= 57) || (65 <= b <= 90) || (97 <= b <= 122) || b == 45 || b == 46 || b == 95 || b
        == 126
}

/// An upper-case hexadecimal digit.
pub open spec fn hex_digit(d: nat) -> char {
    if d < 10 {
        (48 + d) as char
    } else {
        (55 + d) as char
    }
}

/// One byte, percent-encoded.
pub open spec fn percent_byte(b: u8) -> Seq<char> {
    if unreserved(b) {
        seq![b as char]
    } else {
        seq!['%', hex_digit((b / 16) as nat), hex_digit((b % 16) as nat)]
    }
}

/// Bytes, percent-encoded one after the other.
pub open spec fn percent_bytes(bs: Seq<u8>) -> Seq<char>
    decreases bs.len(),
{
    if bs.len() == 0 {
        Seq::empty()
    } else {
        percent_byte(bs[0]) + percent_bytes(bs.drop_first())
    }
}

/// The UTF-8 encoding of a character.
pub open spec fn utf8_of(c: char) -> Seq<u8> {
    let n = c as nat;
    if n < 0x80 {
        seq![n as u8]
    } else if n < 0x800 {
        seq![(0xC0 + n / 64) as u8, (0x80 + n % 64) as u8]
    } else if n < 0x10000 {
        seq![(0xE0 + n / 4096) as u8, (0x80 + (n / 64) % 64) as u8, (0x80 + n % 64) as u8]
    } else {
        seq![
            (0xF0 + n / 262144) as u8,
            (0x80 + (n / 4096) % 64) as u8,
            (0x80 + (n / 64) % 64) as u8,
            (0x80 + n % 64) as u8,
        ]
    }
}

/// A text percent-encoded byte by byte over its UTF-8 encoding.
pub open spec fn percent_encoded(s: Seq<char>) -> Seq<char>
    decreases s.len(),
{
    if s.len() == 0 {
        Seq::empty()
    } else {
        percent_bytes(utf8_of(s[0])) + percent_encoded(s.drop_first())
    }
}

/// `urlencoding::encode`: percent-encodes every byte of the text's UTF-8
/// encoding except ASCII letters, digits and `-`, `.`, `_`, `~`, writing
/// each as `%` and two upper-case hexadecimal digits.
#[verifier::external_body]
fn url_encode(s: &str) -> (r: String)
    ensures
        r@ == percent_encoded(s@),
{
    urlencoding::encode(s).into_owned()
}

/// The address of the calendar between two dates.
pub open spec fn calendar_url_spec(date_from: Seq<char>, date_to: Seq<char>) -> Seq<char> {
    "https://gw2.ftmo.com/public-api/v1/economic-calendar?dateFrom="@ + percent_encoded(date_from)
        + "&dateTo="@ + percent_encoded(date_to)
        + "&timezone=Europe/Amsterdam&forceUnrestricted=false"@
}

/// The address the calendar is requested from.
pub fn calendar_url(date_from: &str, date_to: &str) -> (u: String)
    ensures
        u@ == calendar_url_spec(date_from@, date_to@),
{
    let from = url_encode(date_from);
    let to = url_encode(date_to);
    let mut u = concat3(
        "https://gw2.ftmo.com/public-api/v1/economic-calendar?dateFrom=",
        from.as_str(),
        "&dateTo=",
    );
    u.append(to.as_str());
    u.append("&timezone=Europe/Amsterdam&forceUnrestricted=false");
    u
}

/// How a calendar request failed.
#[derive(Debug, Clone)]
pub enum CalendarFailure {
    /// The request could not be made (this error).
    Fetch(String),
    /// The server answered with this status, which is not a success.
    Status(String),
    /// The answer was not JSON (this error).
    Parse(String),
}

/// What a failed calendar request is reported as.
pub fn calendar_error(f: &CalendarFailure) -> (m: String)
    ensures
        m@ == match f {
            CalendarFailure::Fetch(e) => "Failed to fetch economic calendar: "@ + e@,
            CalendarFailure::Status(s) => "API request failed with status: "@ + s@,
            CalendarFailure::Parse(e) => "Failed to parse response: "@ + e@,
        },
{
    match f {
        CalendarFailure::Fetch(e) => concat2("Failed to fetch economic calendar: ", e.as_str()),
        CalendarFailure::Status(s) => concat2("API request failed with status: ", s.as_str()),
        CalendarFailure::Parse(e) => concat2("Failed to parse response: ", e.as_str()),
    }
}

} // verus!

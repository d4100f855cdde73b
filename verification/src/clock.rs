//! Fresh identifiers and the current time.
use vstd::prelude::*;

verus! {

/// A lowercase hexadecimal digit.
pub open spec fn is_hex_digit(c: char) -> bool {
    ('0' <= c && c <= '9') || ('a' <= c && c <= 'f')
}

/// The hyphenated form of a version 4 UUID: 36 characters, hyphens at 8, 13,
/// 18 and 23, lowercase hexadecimal digits elsewhere, the version digit `4`
/// at 14 and a variant digit among `8`, `9`, `a`, `b` at 19.
pub open spec fn is_uuid_v4_text(s: Seq<char>) -> bool {
    &&& s.len() == 36
    &&& forall|i: int|
        0 <= i < 36 ==> if i == 8 || i == 13 || i == 18 || i == 23 {
            s[i] == '-'
        } else {
            is_hex_digit(#[trigger] s[i])
        }
    &&& s[14] == '4'
    &&& s[19] == '8' || s[19] == '9' || s[19] == 'a' || s[19] == 'b'
}

/// Calls `uuid::Uuid::new_v4` and formats it with `to_string`: a random
/// version 4 UUID in its hyphenated lowercase form. Which one is not stated,
/// as the value is random.
#[verifier::external_body]
pub(crate) fn new_id() -> (r: String)
    ensures
        is_uuid_v4_text(r@),
{
    uuid::Uuid::new_v4().to_string()
}

/// Calls `chrono::Utc::now` and takes `timestamp_micros`: the current time
/// as microseconds since the Unix epoch. Nothing is stated about its value.
#[verifier::external_body]
pub(crate) fn now_micros() -> (r: i64) {
    chrono::Utc::now().timestamp_micros()
}

/// A decimal digit.
pub open spec fn is_decimal_digit(c: char) -> bool {
    '0' <= c && c <= '9'
}

/// Decimal digits only.
pub open spec fn all_decimal(s: Seq<char>) -> bool {
    forall|i: int| 0 <= i < s.len() ==> is_decimal_digit(#[trigger] s[i])
}

/// The year of an RFC 3339 time: four digits, or a sign followed by at least
/// four digits for a year outside 0 to 9999.
pub open spec fn is_rfc3339_year(y: Seq<char>) -> bool {
    ||| y.len() == 4 && all_decimal(y)
    ||| y.len() >= 5 && (y[0] == '+' || y[0] == '-') && all_decimal(y.drop_first())
}

/// `-MM-DDTHH:MM:SS`: the date after the year and the time of day, two
/// digits each.
pub open spec fn is_rfc3339_date_time(d: Seq<char>) -> bool {
    &&& d.len() == 15
    &&& d[0] == '-' && d[3] == '-' && d[6] == 'T' && d[9] == ':' && d[12] == ':'
    &&& forall|i: int|
        0 <= i < 15 && i != 0 && i != 3 && i != 6 && i != 9 && i != 12
            ==> is_decimal_digit(#[trigger] d[i])
}

/// The fraction of a second: none, or a dot and three, six or nine digits.
pub open spec fn is_rfc3339_fraction(f: Seq<char>) -> bool {
    ||| f.len() == 0
    ||| (f.len() == 4 || f.len() == 7 || f.len() == 10) && f[0] == '.' && all_decimal(
        f.drop_first(),
    )
}

/// A time in UTC written as RFC 3339: year, date and time of day, an
/// optional fraction of a second, and the offset `+00:00`.
pub open spec fn is_rfc3339_utc(s: Seq<char>) -> bool {
    exists|y: Seq<char>, d: Seq<char>, f: Seq<char>|
        #![trigger is_rfc3339_year(y), is_rfc3339_date_time(d), is_rfc3339_fraction(f)]
        is_rfc3339_year(y) && is_rfc3339_date_time(d) && is_rfc3339_fraction(f) && s == y + d
            + f + seq!['+', '0', '0', ':', '0', '0']
}

/// Calls `chrono::Utc::now` and formats it with `to_rfc3339`: the current
/// time in UTC, in RFC 3339 form with the offset written `+00:00`. Which
/// time is not stated, as it depends on the clock.
#[verifier::external_body]
pub(crate) fn now_rfc3339() -> (r: String)
    ensures
        is_rfc3339_utc(r@),
{
    chrono::Utc::now().to_rfc3339()
}

} // verus!

//! Values that come from the clock and from the random-number generator:
//! the current UTC time as an RFC 3339 string, and random version-4 UUIDs.
//! Neither is a function of its arguments, so nothing here is named; the
//! contracts state what holds of every value that can come back.

use vstd::prelude::*;
use crate::text::is_digit;

verus! {

/// Positions `start` to `start + n - 1` of `s` hold ASCII digits.
pub open spec fn digits_at(s: Seq<char>, start: int, n: int) -> bool {
    &&& 0 <= start
    &&& start + n <= s.len()
    &&& forall|i: int| start <= i < start + n ==> is_digit(#[trigger] s[i])
}

/// What chrono writes after the year of a UTC time: `-MM-DDTHH:MM:SS`, then
/// either nothing or `.` and 3, 6 or 9 digits of fraction, then `+00:00`.
pub open spec fn is_rfc3339_after_year(t: Seq<char>) -> bool {
    let frac = t.subrange(15, t.len() - 6);
    &&& t.len() >= 21
    &&& t[0] == '-'
    &&& digits_at(t, 1, 2)
    &&& t[3] == '-'
    &&& digits_at(t, 4, 2)
    &&& t[6] == 'T'
    &&& digits_at(t, 7, 2)
    &&& t[9] == ':'
    &&& digits_at(t, 10, 2)
    &&& t[12] == ':'
    &&& digits_at(t, 13, 2)
    &&& (frac.len() == 0 || ((frac.len() == 4 || frac.len() == 7 || frac.len() == 10) && frac[0]
        == '.' && digits_at(frac, 1, frac.len() - 1)))
    &&& t.subrange(t.len() - 6, t.len() as int) == seq!['+', '0', '0', ':', '0', '0']
}

/// `s` writes a year in its first `k` characters, followed by the rest of an
/// RFC 3339 UTC time.  Years 0 to 9999 take four digits; chrono writes any
/// other year with a sign and at least four digits (`{year:+05}`).
pub open spec fn year_then_time(s: Seq<char>, k: int) -> bool {
    &&& k <= s.len()
    &&& (k == 4 && digits_at(s, 0, 4) || k >= 5 && (s[0] == '+' || s[0] == '-') && digits_at(
        s,
        1,
        k - 1,
    ))
    &&& is_rfc3339_after_year(s.subrange(k, s.len() as int))
}

/// The form `DateTime<Utc>::to_rfc3339` writes: `YYYY-MM-DDTHH:MM:SS`, an
/// optional `.` with 3, 6 or 9 digits of fraction, and the offset `+00:00`;
/// a year outside 0 to 9999 is written with its sign.
pub open spec fn is_utc_rfc3339_shape(s: Seq<char>) -> bool {
    exists|k: int| #[trigger] year_then_time(s, k)
}

/// `c` is a lower-case hexadecimal digit.
pub open spec fn is_lower_hex(c: char) -> bool {
    ||| 48 <= (c as u32) <= 57
    ||| 97 <= (c as u32) <= 102
}

/// The hyphenated lower-case text of a random (version 4, RFC 4122 variant)
/// UUID: `xxxxxxxx-xxxx-4xxx-yxxx-xxxxxxxxxxxx` with `y` one of `8 9 a b`.
pub open spec fn is_uuid_v4_text(s: Seq<char>) -> bool {
    &&& s.len() == 36
    &&& forall|i: int|
        0 <= i < 36 ==> if i == 8 || i == 13 || i == 18 || i == 23 {
            s[i] == '-'
        } else {
            is_lower_hex(#[trigger] s[i])
        }
    &&& s[14] == '4'
    &&& (s[19] == '8' || s[19] == '9' || s[19] == 'a' || s[19] == 'b')
}

/// `chrono::Utc::now().to_rfc3339()`: the current time.  The claim is the
/// form that chrono's RFC 3339 writer (`write_rfc3339` with automatic
/// sub-second precision and a zero offset) gives every UTC time; which time
/// comes back is not stated.
#[verifier::external_body]
pub(crate) fn now_rfc3339() -> (s: String)
    ensures
        is_utc_rfc3339_shape(s@),
{
    chrono::Utc::now().to_rfc3339()
}

/// `uuid::Uuid::new_v4().to_string()`: a fresh random UUID in its hyphenated
/// lower-case form.  `new_v4` fixes the version nibble to 4 and the variant
/// bits to `10`; the other 122 bits are random and not stated.
#[verifier::external_body]
pub(crate) fn random_uuid_text() -> (s: String)
    ensures
        is_uuid_v4_text(s@),
{
    uuid::Uuid::new_v4().to_string()
}

} // verus!

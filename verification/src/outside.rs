//! Calls into the outside crates (`sha2`, `hex`, `serde_json`, `chrono`), each
//! behind a trusted contract.
use sha2::Digest;
use chrono::TimeZone;
use vstd::prelude::*;

use crate::text::digit_char;

verus! {

/// SHA-256 digest of a byte string (32 bytes).
pub uninterp spec fn sha256_digest(data: Seq<u8>) -> [u8; 32];

/// Two different byte strings have different digests: the absence of a
/// SHA-256 collision between `a` and `b`, assumed only where a law names it.
pub open spec fn no_collision(a: Seq<u8>, b: Seq<u8>) -> bool {
    a != b ==> sha256_digest(a)@ != sha256_digest(b)@
}

/// Trusted: `sha2::Sha256::digest` returns the SHA-256 digest of `data`;
/// the contract names that digest and claims nothing else about it.
#[verifier::external_body]
pub(crate) fn sha256(data: &[u8]) -> (r: [u8; 32])
    ensures
        r == sha256_digest(data@),
{
    sha2::Sha256::digest(data).into()
}

/// Lower-case hexadecimal digit for `n` in `0..16`.
pub open spec fn hex_digit(n: int) -> char {
    if n < 10 {
        digit_char(n)
    } else if n == 10 {
        'a'
    } else if n == 11 {
        'b'
    } else if n == 12 {
        'c'
    } else if n == 13 {
        'd'
    } else if n == 14 {
        'e'
    } else {
        'f'
    }
}

/// Lower-case hexadecimal text of a byte string: two digits per byte, high nibble first.
pub open spec fn hex_text(bytes: Seq<u8>) -> Seq<char>
    decreases bytes.len(),
{
    if bytes.len() == 0 {
        Seq::empty()
    } else {
        hex_text(bytes.drop_last()) + seq![
            hex_digit((bytes.last() / 16) as int),
            hex_digit((bytes.last() % 16) as int),
        ]
    }
}

/// Hex text is ASCII and two characters per byte.
pub proof fn lemma_hex_text_ascii(bytes: Seq<u8>)
    ensures
        hex_text(bytes).len() == 2 * bytes.len(),
        vstd::utf8::is_ascii_chars(hex_text(bytes)),
    decreases bytes.len(),
{
    if bytes.len() > 0 {
        lemma_hex_text_ascii(bytes.drop_last());
        let h = hex_text(bytes.drop_last());
        let t = seq![hex_digit((bytes.last() / 16) as int), hex_digit((bytes.last() % 16) as int)];
        assert(vstd::utf8::is_ascii_chars(t));
        vstd::utf8::is_ascii_chars_concat(h + t, h, t);
    }
}

proof fn lemma_hex_digit_value(n: int)
    requires
        0 <= n < 16,
    ensures
        hex_digit(n) as int == if n < 10 { 48 + n } else { 87 + n },
{
}

/// Different byte strings have different hex texts.
pub proof fn lemma_hex_text_injective(a: Seq<u8>, b: Seq<u8>)
    requires
        hex_text(a) == hex_text(b),
    ensures
        a == b,
    decreases a.len(),
{
    lemma_hex_text_ascii(a);
    lemma_hex_text_ascii(b);
    if a.len() > 0 {
        let ha = hex_text(a.drop_last());
        let hb = hex_text(b.drop_last());
        lemma_hex_text_ascii(a.drop_last());
        lemma_hex_text_ascii(b.drop_last());
        let n = ha.len() as int;
        assert(hex_text(a).subrange(0, n) =~= ha);
        assert(hex_text(b).subrange(0, n) =~= hb);
        lemma_hex_text_injective(a.drop_last(), b.drop_last());
        let x = a.last();
        let y = b.last();
        assert(hex_text(a)[n] == hex_digit((x / 16) as int));
        assert(hex_text(b)[n] == hex_digit((y / 16) as int));
        assert(hex_text(a)[n + 1] == hex_digit((x % 16) as int));
        assert(hex_text(b)[n + 1] == hex_digit((y % 16) as int));
        lemma_hex_digit_value((x / 16) as int);
        lemma_hex_digit_value((y / 16) as int);
        lemma_hex_digit_value((x % 16) as int);
        lemma_hex_digit_value((y % 16) as int);
        assert(x == y);
        assert(a =~= a.drop_last().push(x));
        assert(b =~= b.drop_last().push(y));
    }
}

/// Trusted: `hex::encode` writes each byte as two lower-case hexadecimal
/// digits, high nibble first, in order (its documentation and source say so).
#[verifier::external_body]
pub(crate) fn hex_encode(data: &[u8]) -> (r: String)
    ensures
        r@ == hex_text(data@),
{
    hex::encode(data)
}

/// How JSON writes one character inside a string literal, as `serde_json` escapes it.
pub open spec fn json_char_text(c: char) -> Seq<char> {
    if c == '"' {
        seq!['\\', '"']
    } else if c == '\\' {
        seq!['\\', '\\']
    } else if c == '\u{8}' {
        seq!['\\', 'b']
    } else if c == '\u{c}' {
        seq!['\\', 'f']
    } else if c == '\n' {
        seq!['\\', 'n']
    } else if c == '\r' {
        seq!['\\', 'r']
    } else if c == '\t' {
        seq!['\\', 't']
    } else if (c as int) < 32 {
        seq!['\\', 'u', '0', '0', hex_digit((c as int) / 16), hex_digit((c as int) % 16)]
    } else {
        seq![c]
    }
}

/// The escaped characters of a JSON string literal's body.
pub open spec fn json_escaped(s: Seq<char>) -> Seq<char>
    decreases s.len(),
{
    if s.len() == 0 {
        Seq::empty()
    } else {
        json_escaped(s.drop_last()) + json_char_text(s.last())
    }
}

/// A JSON string literal: the escaped text between double quotes.
pub open spec fn json_string_text(s: Seq<char>) -> Seq<char> {
    seq!['"'] + json_escaped(s) + seq!['"']
}

/// Trusted: `serde_json::to_string` on a `str` writes the quoted string with
/// `"` and `\` escaped by a backslash, the control characters 8, 9, 10, 12
/// and 13 as `\b \t \n \f \r`, the other characters below 32 as `\u00xx`
/// with lower-case digits, and every other character as itself. Serialising a
/// `str` into memory does not fail, so the error branch is never taken.
#[verifier::external_body]
pub(crate) fn json_string(s: &str) -> (r: String)
    ensures
        r@ == json_string_text(s@),
{
    serde_json::to_string(s).unwrap_or_default()
}

/// Zero-padded decimal text of `n` in `k` digits (the last `k` digits of `n`).
pub open spec fn padded_digits(n: int, k: nat) -> Seq<char>
    decreases k,
{
    if k == 0 {
        Seq::empty()
    } else {
        padded_digits(n / 10, (k - 1) as nat).push(digit_char(n % 10))
    }
}

/// The fraction of a second as RFC 3339 text shows it: none for whole
/// seconds, else milli-, micro- or nanoseconds, the shortest that is exact.
pub open spec fn fraction_text(nanos: int) -> Seq<char> {
    if nanos == 0 {
        Seq::empty()
    } else if nanos % 1_000_000 == 0 {
        "."@ + padded_digits(nanos / 1_000_000, 3)
    } else if nanos % 1_000 == 0 {
        "."@ + padded_digits(nanos / 1_000, 6)
    } else {
        "."@ + padded_digits(nanos, 9)
    }
}

/// RFC 3339 text of a UTC date and time: `YYYY-MM-DDTHH:MM:SS`, the
/// fraction of a second, and the offset `+00:00`.
pub open spec fn rfc3339_text(y: int, m: int, d: int, h: int, mi: int, s: int, nanos: int) -> Seq<char> {
    padded_digits(y, 4) + "-"@ + padded_digits(m, 2) + "-"@ + padded_digits(d, 2) + "T"@ + padded_digits(h, 2)
        + ":"@ + padded_digits(mi, 2) + ":"@ + padded_digits(s, 2) + fraction_text(nanos) + "+00:00"@
}

/// A reading of the UTC clock: `secs` Unix seconds, not before 1970, and
/// `text` the RFC 3339 text of that second with some fraction of a second
/// (for years up to 9999, which four year digits hold).
pub open spec fn clock_reading(secs: int, text: Seq<char>) -> bool {
    &&& 0 <= secs
    &&& secs < 253_402_300_800 ==> exists|y: int, m: int, d: int, h: int, mi: int, s: int, nanos: int|
        {
            &&& 1970 <= y <= 9999
            &&& valid_civil(y, m, d, h, mi, s)
            &&& 0 <= nanos < 1_000_000_000
            &&& civil_unix_time(y, m, d, h, mi, s) == secs
            &&& text == #[trigger] rfc3339_text(y, m, d, h, mi, s, nanos)
        }
}

/// Trusted: `chrono::Utc::now` reads the system clock (`SystemTime` since the
/// Unix epoch, so never before 1970); `timestamp` gives its whole seconds and
/// `to_rfc3339` its text, which writes the same instant's UTC date and time,
/// the fraction of a second in the shortest exact form, and `+00:00`. Which
/// instant is read is not claimed: it depends on the time of the call.
#[verifier::external_body]
pub(crate) fn utc_now() -> (r: (i64, String))
    ensures
        clock_reading(r.0 as int, r.1@),
{
    let now = chrono::Utc::now();
    (now.timestamp(), now.to_rfc3339())
}

/// Gregorian leap year.
pub open spec fn is_leap_year(y: int) -> bool {
    (y % 4 == 0 && y % 100 != 0) || y % 400 == 0
}

/// Number of days in month `m` (1..=12) of year `y`.
pub open spec fn days_in_month(y: int, m: int) -> int {
    if m == 2 {
        if is_leap_year(y) { 29 } else { 28 }
    } else if m == 4 || m == 6 || m == 9 || m == 11 {
        30
    } else {
        31
    }
}

/// Whether the fields name an existing date and a time of day without a leap second.
pub open spec fn valid_civil(y: int, m: int, d: int, h: int, mi: int, s: int) -> bool {
    &&& 1 <= m <= 12
    &&& 1 <= d <= days_in_month(y, m)
    &&& 0 <= h < 24
    &&& 0 <= mi < 60
    &&& 0 <= s < 60
}

/// Number of days in year `y`.
pub open spec fn days_in_year(y: int) -> int {
    if is_leap_year(y) { 366 } else { 365 }
}

/// Days from 1970-01-01 to the first of January of year `y` (negative before 1970).
pub open spec fn days_to_year(y: int) -> int
    decreases (if y >= 1970 { y - 1970 } else { 1970 - y }),
{
    if y == 1970 {
        0
    } else if y > 1970 {
        days_to_year(y - 1) + days_in_year(y - 1)
    } else {
        days_to_year(y + 1) - days_in_year(y)
    }
}

/// Days in the months of year `y` before month `m`.
pub open spec fn days_before_month(y: int, m: int) -> int
    decreases m,
{
    if m <= 1 {
        0
    } else {
        days_before_month(y, m - 1) + days_in_month(y, m - 1)
    }
}

/// Days from 1970-01-01 to the given date of the proleptic Gregorian calendar.
pub open spec fn days_from_civil(y: int, m: int, d: int) -> int {
    days_to_year(y) + days_before_month(y, m) + d - 1
}

/// Unix time of a UTC date and time.
#[verifier::opaque]
pub open spec fn civil_unix_time(y: int, m: int, d: int, h: int, mi: int, s: int) -> int {
    days_from_civil(y, m, d) * 86400 + h * 3600 + mi * 60 + s
}

proof fn lemma_days_to_year_bounds(y: int)
    ensures
        y >= 1970 ==> 365 * (y - 1970) <= days_to_year(y) <= 366 * (y - 1970),
        y < 1970 ==> -366 * (1970 - y) <= days_to_year(y) <= -365 * (1970 - y),
    decreases (if y >= 1970 { y - 1970 } else { 1970 - y }),
{
    if y > 1970 {
        lemma_days_to_year_bounds(y - 1);
    } else if y < 1970 {
        lemma_days_to_year_bounds(y + 1);
    }
}

proof fn lemma_days_before_month_bounds(y: int, m: int)
    requires
        1 <= m <= 12,
    ensures
        0 <= days_before_month(y, m) <= 31 * (m - 1),
    decreases m,
{
    if m > 1 {
        lemma_days_before_month_bounds(y, m - 1);
    }
}

/// The Unix time of a date of the years 1 to 9999 fits in `i64`.
pub proof fn lemma_civil_unix_time_range(y: int, m: int, d: int, h: int, mi: int, s: int)
    requires
        1 <= y <= 9999,
        valid_civil(y, m, d, h, mi, s),
    ensures
        -100_000_000_000 <= civil_unix_time(y, m, d, h, mi, s) <= 300_000_000_000,
{
    reveal(civil_unix_time);
    lemma_days_to_year_bounds(y);
    lemma_days_before_month_bounds(y, m);
    let days = days_from_civil(y, m, d);
    assert(-800_000 <= days <= 3_400_000);
}

/// Trusted: `chrono::Utc.with_ymd_and_hms` builds the UTC date and time, and
/// `timestamp` gives its Unix time. For an existing date of the years 1 to
/// 9999 and a valid time of day the result is that Unix time; for a month,
/// day, hour, minute or second out of range there is none. Years outside
/// 1 to 9999 with valid fields are left unsaid.
#[verifier::external_body]
pub(crate) fn utc_timestamp(y: i32, mo: u32, d: u32, h: u32, mi: u32, s: u32) -> (r: Option<i64>)
    ensures
        1 <= y <= 9999 && valid_civil(y as int, mo as int, d as int, h as int, mi as int, s as int)
            ==> r == Some(civil_unix_time(y as int, mo as int, d as int, h as int, mi as int, s as int) as i64),
        !valid_civil(y as int, mo as int, d as int, h as int, mi as int, s as int) ==> r is None,
{
    match chrono::Utc.with_ymd_and_hms(y, mo, d, h, mi, s).single() {
        Some(t) => Some(t.timestamp()),
        None => None,
    }
}

} // verus!

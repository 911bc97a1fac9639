pub mod error;

use vstd::prelude::*;
use vstd::string::*;
use vstd::utf8::{encode_utf8, decode_utf8, valid_utf8};

pub use error::Error;

verus! {

// ---------------------------------------------------------------------------
// Base64-URL encoding and decoding
// ---------------------------------------------------------------------------
/// The Base64-URL rendering of a byte sequence (RFC 4648 section 5 alphabet,
/// no padding), as computed by the `base64-url` crate.
pub uninterp spec fn b64u_of(bytes: Seq<u8>) -> Seq<char>;

/// True for the characters of the URL-safe Base64 alphabet:
/// `A`-`Z`, `a`-`z`, `0`-`9`, `-` and `_`.
pub open spec fn is_b64u_char(c: char) -> bool {
    (65 <= c as u32 <= 90) || (97 <= c as u32 <= 122) || (48 <= c as u32 <= 57) || c as u32 == 45
        || c as u32 == 95
}

/// True when every character of the sequence belongs to the URL-safe Base64
/// alphabet.  In particular such a sequence contains no `.` separator.
pub open spec fn all_b64u_chars(s: Seq<char>) -> bool {
    forall|i: int| 0 <= i < s.len() ==> is_b64u_char(#[trigger] s[i])
}

/// Relies on `base64_url::encode`: it renders the bytes with the URL-safe
/// alphabet of RFC 4648 section 5 and no padding, so the result is a function
/// of the bytes alone and uses only alphabet characters.
#[verifier::external_body]
fn b64u_encode_bytes(bytes: &[u8]) -> (r: String)
    ensures
        r@ == b64u_of(bytes@),
        all_b64u_chars(r@),
{
    base64_url::encode(bytes)
}

/// Relies on `base64_url::decode`: with the `NO_PAD` engine configuration it
/// accepts exactly the padding-free canonical renderings (trailing bits are
/// checked), so it succeeds precisely on the image of the encoder and inverts
/// it there.
#[verifier::external_body]
fn b64u_decode_bytes(s: &str) -> (r: Option<Vec<u8>>)
    ensures
        r is Some ==> s@ == b64u_of(r->Some_0@),
        forall|b: Seq<u8>| s@ == #[trigger] b64u_of(b) ==> (r is Some && r->Some_0@ == b),
{
    base64_url::decode(s).ok()
}

/// Relies on `String::from_utf8` (std): it succeeds exactly on valid UTF-8
/// input and returns the string holding those bytes.
#[verifier::external_body]
fn string_from_utf8(bytes: Vec<u8>) -> (r: Option<String>)
    ensures
        (r is Some) == valid_utf8(bytes@),
        r is Some ==> r->Some_0@ == decode_utf8(bytes@),
{
    String::from_utf8(bytes).ok()
}

/// Encodes a string as Base64-URL (no padding).
pub fn b64u_encode(content: &str) -> (r: String)
    ensures
        r@ == b64u_of(encode_utf8(content@)),
        all_b64u_chars(r@),
{
    b64u_encode_bytes(content.as_bytes())
}

/// Encodes raw bytes, such as a digest, as Base64-URL (no padding).
pub fn b64u_encode_digest(bytes: &Vec<u8>) -> (r: String)
    ensures
        r@ == b64u_of(bytes@),
        all_b64u_chars(r@),
{
    b64u_encode_bytes(bytes.as_slice())
}

/// Decodes a Base64-URL string back to the string it encodes.  Succeeds on
/// every canonical encoding of a string; any failure is `FailToB64uDecode`.
pub fn b64u_decode(b64u: &str) -> (r: Result<String, Error>)
    ensures
        r matches Ok(v) ==> b64u@ == b64u_of(encode_utf8(v@)),
        forall|p: Seq<char>| b64u@ == b64u_of(#[trigger] encode_utf8(p)) ==> (r matches Ok(v)
            && v@ == p),
        r is Err ==> r == Err::<String, Error>(Error::FailToB64uDecode),
{
    proof {
        broadcast use vstd::utf8::encode_utf8_valid_utf8;
        broadcast use vstd::utf8::encode_utf8_decode_utf8;
        broadcast use vstd::utf8::decode_utf8_encode_utf8;

    }
    match b64u_decode_bytes(b64u) {
        Some(bytes) => match string_from_utf8(bytes) {
            Some(s) => Ok(s),
            None => Err(Error::FailToB64uDecode),
        },
        None => Err(Error::FailToB64uDecode),
    }
}

/// Checks that every character of a string belongs to the URL-safe Base64
/// alphabet.
pub fn all_b64u(s: &str) -> (r: bool)
    ensures
        r == all_b64u_chars(s@),
{
    let n = s.unicode_len();
    let mut ok = true;
    for i in 0..n
        invariant
            n == s@.len(),
            ok == forall|j: int| 0 <= j < i ==> is_b64u_char(#[trigger] s@[j]),
    {
        let u = s.get_char(i) as u32;
        let good = (65 <= u && u <= 90) || (97 <= u && u <= 122) || (48 <= u && u <= 57) || u == 45
            || u == 95;
        if !good {
            ok = false;
        }
    }
    ok
}

/// Every character of the URL-safe Base64 alphabet differs from the `.`
/// separator.
pub proof fn lemma_b64u_chars_dot_free(s: Seq<char>)
    requires
        all_b64u_chars(s),
    ensures
        forall|i: int| 0 <= i < s.len() ==> #[trigger] s[i] != '.',
{
}

// ---------------------------------------------------------------------------
// UTC timestamps and their ISO-8601 rendering
// ---------------------------------------------------------------------------
/// A civil UTC date and time with second precision.
#[derive(Clone, Copy, Debug, PartialEq, Eq, Structural)]
pub struct Civil {
    pub year: u64,
    pub month: u64,
    pub day: u64,
    pub hour: u64,
    pub minute: u64,
    pub second: u64,
}

pub open spec fn is_leap_year(y: int) -> bool {
    (y % 4 == 0 && y % 100 != 0) || y % 400 == 0
}

pub open spec fn days_in_year(y: int) -> int {
    if is_leap_year(y) {
        366
    } else {
        365
    }
}

pub open spec fn days_in_month(y: int, m: int) -> int {
    if m == 4 || m == 6 || m == 9 || m == 11 {
        30
    } else if m == 2 {
        if is_leap_year(y) {
            29
        } else {
            28
        }
    } else {
        31
    }
}

/// Days of year `y` that lie before month `m` (for `m` in 1..=13).
pub open spec fn days_before_month(y: int, m: int) -> int
    decreases m,
{
    if m <= 1 {
        0
    } else {
        days_before_month(y, m - 1) + days_in_month(y, m - 1)
    }
}

/// Days between 1970-01-01 and the first day of year `y`.
pub open spec fn days_before_year(y: int) -> int
    decreases y,
{
    if y <= 1970 {
        0
    } else {
        days_before_year(y - 1) + days_in_year(y - 1)
    }
}

pub open spec fn valid_civil(c: Civil) -> bool {
    &&& 1970 <= c.year <= 9999
    &&& 1 <= c.month <= 12
    &&& 1 <= c.day <= days_in_month(c.year as int, c.month as int)
    &&& c.hour < 24
    &&& c.minute < 60
    &&& c.second < 60
}

/// Days between 1970-01-01 and the given civil date.
pub open spec fn civil_days(c: Civil) -> int {
    days_before_year(c.year as int) + days_before_month(c.year as int, c.month as int) + c.day - 1
}

/// Seconds between the Unix epoch and the given civil date and time.
pub open spec fn civil_ts(c: Civil) -> int {
    civil_days(c) * 86400 + c.hour * 3600 + c.minute * 60 + c.second
}

/// True for the timestamps whose year fits the four-digit ISO-8601 form.
pub open spec fn ts_in_range(ts: int) -> bool {
    0 <= ts < 86400 * days_before_year(10000)
}

pub open spec fn digit_char(n: int) -> char {
    if n == 0 {
        '0'
    } else if n == 1 {
        '1'
    } else if n == 2 {
        '2'
    } else if n == 3 {
        '3'
    } else if n == 4 {
        '4'
    } else if n == 5 {
        '5'
    } else if n == 6 {
        '6'
    } else if n == 7 {
        '7'
    } else if n == 8 {
        '8'
    } else {
        '9'
    }
}

pub open spec fn is_digit_char(c: char) -> bool {
    48 <= c as u32 <= 57
}

pub open spec fn digit_val(c: char) -> int {
    c as u32 - 48
}

/// Two decimal digits, high then low, of `n` in 0..=99.
pub open spec fn fmt2(n: int) -> Seq<char> {
    seq![digit_char(n / 10), digit_char(n % 10)]
}

/// Four decimal digits of `n` in 0..=9999.
pub open spec fn fmt4(n: int) -> Seq<char> {
    fmt2(n / 100) + fmt2(n % 100)
}

/// The ISO-8601 UTC rendering `YYYY-MM-DDThh:mm:ssZ` of a civil time.
pub open spec fn fmt_civil(c: Civil) -> Seq<char> {
    fmt4(c.year as int) + seq!['-'] + fmt2(c.month as int) + seq!['-'] + fmt2(c.day as int)
        + seq!['T'] + fmt2(c.hour as int) + seq![':'] + fmt2(c.minute as int) + seq![':'] + fmt2(
        c.second as int,
    ) + seq!['Z']
}

pub open spec fn parse2(s: Seq<char>, i: int) -> int {
    digit_val(s[i]) * 10 + digit_val(s[i + 1])
}

pub open spec fn parse4(s: Seq<char>, i: int) -> int {
    parse2(s, i) * 100 + parse2(s, i + 2)
}

/// The civil fields read off an ISO-8601 rendering (meaningful under
/// `is_ts_chars`).
pub open spec fn civil_of_chars(s: Seq<char>) -> Civil {
    Civil {
        year: parse4(s, 0) as u64,
        month: parse2(s, 5) as u64,
        day: parse2(s, 8) as u64,
        hour: parse2(s, 11) as u64,
        minute: parse2(s, 14) as u64,
        second: parse2(s, 17) as u64,
    }
}

/// True exactly for the well-formed ISO-8601 UTC renderings
/// `YYYY-MM-DDThh:mm:ssZ` of a valid civil time from 1970 on.
pub open spec fn is_ts_chars(s: Seq<char>) -> bool {
    &&& s.len() == 20
    &&& is_digit_char(s[0])
    &&& is_digit_char(s[1])
    &&& is_digit_char(s[2])
    &&& is_digit_char(s[3])
    &&& s[4] == '-'
    &&& is_digit_char(s[5])
    &&& is_digit_char(s[6])
    &&& s[7] == '-'
    &&& is_digit_char(s[8])
    &&& is_digit_char(s[9])
    &&& s[10] == 'T'
    &&& is_digit_char(s[11])
    &&& is_digit_char(s[12])
    &&& s[13] == ':'
    &&& is_digit_char(s[14])
    &&& is_digit_char(s[15])
    &&& s[16] == ':'
    &&& is_digit_char(s[17])
    &&& is_digit_char(s[18])
    &&& s[19] == 'Z'
    &&& valid_civil(civil_of_chars(s))
}

/// The timestamp an ISO-8601 rendering denotes.
pub open spec fn ts_chars_val(s: Seq<char>) -> int {
    civil_ts(civil_of_chars(s))
}

pub proof fn lemma_days_before_year_upper(y: int)
    requires
        1970 <= y,
    ensures
        days_before_year(y) <= 366 * (y - 1970),
    decreases y,
{
    if y > 1970 {
        lemma_days_before_year_upper(y - 1);
    }
}

proof fn lemma_days_before_year_mono(a: int, b: int)
    requires
        a <= b,
    ensures
        days_before_year(a) <= days_before_year(b),
    decreases b - a,
{
    if a < b {
        lemma_days_before_year_mono(a, b - 1);
    }
}

proof fn lemma_days_before_month_full(y: int, m: int)
    requires
        1 <= m <= 12,
    ensures
        days_before_month(y, m) + days_in_month(y, m) <= days_in_year(y),
        days_before_month(y, 13) == days_in_year(y),
    decreases 13 - m,
{
    assert(days_before_month(y, 13) == days_in_year(y)) by {
        reveal_with_fuel(days_before_month, 14);
    }
    if m < 12 {
        lemma_days_before_month_full(y, m + 1);
    }
}

fn is_leap_x(y: u64) -> (r: bool)
    ensures
        r == is_leap_year(y as int),
{
    (y % 4 == 0 && y % 100 != 0) || y % 400 == 0
}

fn days_in_year_x(y: u64) -> (r: u64)
    ensures
        r as int == days_in_year(y as int),
{
    if is_leap_x(y) {
        366
    } else {
        365
    }
}

fn days_in_month_x(y: u64, m: u64) -> (r: u64)
    ensures
        r as int == days_in_month(y as int, m as int),
{
    if m == 4 || m == 6 || m == 9 || m == 11 {
        30
    } else if m == 2 {
        if is_leap_x(y) {
            29
        } else {
            28
        }
    } else {
        31
    }
}

/// The largest timestamp this module can render: 9999-12-31T23:59:59Z.
pub fn max_utc_ts() -> (r: u64)
    ensures
        r as int == 86400 * days_before_year(10000) - 1,
{
    let mut y: u64 = 1970;
    let mut acc: u64 = 0;
    while y < 10000
        invariant
            1970 <= y <= 10000,
            acc as int == days_before_year(y as int),
            365 * (y - 1970) <= acc <= 366 * (y - 1970),
        decreases 10000 - y,
    {
        acc = acc + days_in_year_x(y);
        y = y + 1;
    }
    acc * 86400 - 1
}

/// Splits a timestamp into its civil UTC fields.
fn ts_to_civil(ts: u64) -> (c: Civil)
    requires
        ts_in_range(ts as int),
    ensures
        valid_civil(c),
        civil_ts(c) == ts as int,
{
    let days: u64 = ts / 86400;
    let rem: u64 = ts % 86400;
    let hour: u64 = rem / 3600;
    let rem2: u64 = rem % 3600;
    let minute: u64 = rem2 / 60;
    let second: u64 = rem2 % 60;

    let mut y: u64 = 1970;
    let mut dleft: u64 = days;
    proof {
        lemma_days_before_year_mono(1970, 10000);
    }
    while dleft >= days_in_year_x(y)
        invariant
            1970 <= y,
            365 * (y - 1970) <= days_before_year(y as int),
            days_before_year(y as int) + dleft == days,
            days as int <= days_before_year(10000) - 1,
        decreases dleft,
    {
        dleft = dleft - days_in_year_x(y);
        y = y + 1;
    }
    proof {
        if y >= 10000 {
            lemma_days_before_year_mono(10000, y as int);
            assert(false);
        }
    }
    let ghost yrem = dleft as int;
    let mut m: u64 = 1;
    while dleft >= days_in_month_x(y, m)
        invariant
            1 <= m <= 12,
            1970 <= y <= 9999,
            days_before_month(y as int, m as int) + dleft == yrem,
            yrem < days_in_year(y as int),
        decreases 13 - m,
    {
        proof {
            lemma_days_before_month_full(y as int, m as int);
            assert(m < 12);
        }
        dleft = dleft - days_in_month_x(y, m);
        m = m + 1;
    }
    Civil { year: y, month: m, day: dleft + 1, hour, minute, second }
}

/// Rebuilds the timestamp of valid civil UTC fields.
fn civil_to_ts(c: Civil) -> (ts: u64)
    requires
        valid_civil(c),
    ensures
        ts as int == civil_ts(c),
        ts_in_range(ts as int),
{
    let mut y: u64 = 1970;
    let mut days: u64 = 0;
    while y < c.year
        invariant
            1970 <= y <= c.year,
            c.year <= 9999,
            days as int == days_before_year(y as int),
            days <= 366 * (y - 1970),
        decreases c.year - y,
    {
        days = days + days_in_year_x(y);
        y = y + 1;
    }
    let mut m: u64 = 1;
    while m < c.month
        invariant
            1 <= m <= c.month,
            valid_civil(c),
            y == c.year,
            days as int == days_before_year(c.year as int) + days_before_month(
                c.year as int,
                m as int,
            ),
            days <= 366 * (c.year - 1970) + 31 * (m - 1),
        decreases c.month - m,
    {
        days = days + days_in_month_x(c.year, m);
        m = m + 1;
    }
    let days_total: u64 = days + (c.day - 1);
    proof {
        lemma_days_before_month_full(c.year as int, c.month as int);
        lemma_days_before_year_mono(c.year as int + 1, 10000);
        assert(days_before_year(c.year as int + 1) == days_before_year(c.year as int)
            + days_in_year(c.year as int));
    }
    days_total * 86400 + c.hour * 3600 + c.minute * 60 + c.second
}

fn digit_str(d: u64) -> (r: &'static str)
    requires
        d <= 9,
    ensures
        r@ == seq![digit_char(d as int)],
{
    proof {
        reveal_strlit("0");
        reveal_strlit("1");
        reveal_strlit("2");
        reveal_strlit("3");
        reveal_strlit("4");
        reveal_strlit("5");
        reveal_strlit("6");
        reveal_strlit("7");
        reveal_strlit("8");
        reveal_strlit("9");
    }
    let r: &'static str = if d == 0 {
        "0"
    } else if d == 1 {
        "1"
    } else if d == 2 {
        "2"
    } else if d == 3 {
        "3"
    } else if d == 4 {
        "4"
    } else if d == 5 {
        "5"
    } else if d == 6 {
        "6"
    } else if d == 7 {
        "7"
    } else if d == 8 {
        "8"
    } else {
        "9"
    };
    proof {
        assert(r@ =~= seq![digit_char(d as int)]);
    }
    r
}

fn push_two_digits(out: &mut String, n: u64)
    requires
        n <= 99,
    ensures
        final(out)@ == old(out)@ + fmt2(n as int),
{
    out.append(digit_str(n / 10));
    out.append(digit_str(n % 10));
    proof {
        assert(final(out)@ =~= old(out)@ + fmt2(n as int));
    }
}

/// Renders a timestamp as `YYYY-MM-DDThh:mm:ssZ` (ISO-8601, UTC, second
/// precision).  The rendering is well formed and denotes the timestamp again.
pub fn format_utc(ts: u64) -> (r: String)
    requires
        ts_in_range(ts as int),
    ensures
        is_ts_chars(r@),
        ts_chars_val(r@) == ts as int,
        r@ == fmt_civil(civil_of_chars(r@)),
{
    let c = ts_to_civil(ts);
    let mut out = String::new();
    push_two_digits(&mut out, c.year / 100);
    push_two_digits(&mut out, c.year % 100);
    out.append("-");
    push_two_digits(&mut out, c.month);
    out.append("-");
    push_two_digits(&mut out, c.day);
    out.append("T");
    push_two_digits(&mut out, c.hour);
    out.append(":");
    push_two_digits(&mut out, c.minute);
    out.append(":");
    push_two_digits(&mut out, c.second);
    out.append("Z");
    proof {
        reveal_strlit("-");
        reveal_strlit("T");
        reveal_strlit(":");
        reveal_strlit("Z");
        assert(out@ =~= fmt_civil(c));
        lemma_fmt_civil_round_trip(c);
        assert(out@ == fmt_civil(civil_of_chars(out@)));
    }
    out
}

proof fn lemma_digit_round(n: int)
    requires
        0 <= n <= 9,
    ensures
        is_digit_char(digit_char(n)),
        digit_val(digit_char(n)) == n,
{
}

proof fn lemma_fmt2_round(s: Seq<char>, i: int, n: int)
    requires
        0 <= n <= 99,
        0 <= i,
        i + 2 <= s.len(),
        s[i] == digit_char(n / 10),
        s[i + 1] == digit_char(n % 10),
    ensures
        is_digit_char(s[i]),
        is_digit_char(s[i + 1]),
        parse2(s, i) == n,
{
    lemma_digit_round(n / 10);
    lemma_digit_round(n % 10);
}

/// Law: the ISO-8601 rendering of valid civil fields is well formed and
/// parses back to exactly those fields.
#[verifier::rlimit(60)]
pub proof fn lemma_fmt_civil_round_trip(c: Civil)
    requires
        valid_civil(c),
    ensures
        is_ts_chars(fmt_civil(c)),
        civil_of_chars(fmt_civil(c)) == c,
{
    let s = fmt_civil(c);
    let y = c.year as int;
    let mo = c.month as int;
    let d = c.day as int;
    let h = c.hour as int;
    let mi = c.minute as int;
    let sec = c.second as int;
    assert(s =~= seq![
        digit_char(y / 100 / 10),
        digit_char(y / 100 % 10),
        digit_char(y % 100 / 10),
        digit_char(y % 100 % 10),
        '-',
        digit_char(mo / 10),
        digit_char(mo % 10),
        '-',
        digit_char(d / 10),
        digit_char(d % 10),
        'T',
        digit_char(h / 10),
        digit_char(h % 10),
        ':',
        digit_char(mi / 10),
        digit_char(mi % 10),
        ':',
        digit_char(sec / 10),
        digit_char(sec % 10),
        'Z',
    ]);
    lemma_fmt2_round(s, 0, y / 100);
    lemma_fmt2_round(s, 2, y % 100);
    lemma_fmt2_round(s, 5, mo);
    lemma_fmt2_round(s, 8, d);
    lemma_fmt2_round(s, 11, h);
    lemma_fmt2_round(s, 14, mi);
    lemma_fmt2_round(s, 17, sec);
    assert(parse4(s, 0) == y);
}

fn digit_of(c: char) -> (r: Option<u64>)
    ensures
        (r is Some) == is_digit_char(c),
        r is Some ==> r->Some_0 as int == digit_val(c) && r->Some_0 <= 9,
{
    let u = c as u32;
    if 48 <= u && u <= 57 {
        Some((u - 48) as u64)
    } else {
        None
    }
}

/// Reads a `YYYY-MM-DDThh:mm:ssZ` rendering back into its timestamp.
/// Succeeds exactly on the well-formed renderings of valid civil times; any
/// failure reports the offending text.
pub fn parse_utc(s: &str) -> (r: Result<u64, Error>)
    ensures
        r matches Ok(t) ==> is_ts_chars(s@) && t as int == ts_chars_val(s@) && ts_in_range(
            t as int,
        ),
        is_ts_chars(s@) ==> r is Ok,
        r matches Err(e) ==> !is_ts_chars(s@) && (e matches Error::DateTimeParseError(m) && m@
            == s@),
{
    if s.unicode_len() != 20 {
        return Err(Error::DateTimeParseError(s.to_owned()));
    }
    if !(s.get_char(4) == '-' && s.get_char(7) == '-' && s.get_char(10) == 'T' && s.get_char(13)
        == ':' && s.get_char(16) == ':' && s.get_char(19) == 'Z') {
        return Err(Error::DateTimeParseError(s.to_owned()));
    }
    let year = match parse_four_digits(s, 0) {
        Some(v) => v,
        None => {
            return Err(Error::DateTimeParseError(s.to_owned()));
        },
    };
    let month = match parse_two_digits(s, 5) {
        Some(v) => v,
        None => {
            return Err(Error::DateTimeParseError(s.to_owned()));
        },
    };
    let day = match parse_two_digits(s, 8) {
        Some(v) => v,
        None => {
            return Err(Error::DateTimeParseError(s.to_owned()));
        },
    };
    let hour = match parse_two_digits(s, 11) {
        Some(v) => v,
        None => {
            return Err(Error::DateTimeParseError(s.to_owned()));
        },
    };
    let minute = match parse_two_digits(s, 14) {
        Some(v) => v,
        None => {
            return Err(Error::DateTimeParseError(s.to_owned()));
        },
    };
    let second = match parse_two_digits(s, 17) {
        Some(v) => v,
        None => {
            return Err(Error::DateTimeParseError(s.to_owned()));
        },
    };
    let c = Civil { year, month, day, hour, minute, second };
    if !(1970 <= year && 1 <= month && month <= 12 && 1 <= day && day <= days_in_month_x(
        year,
        month,
    ) && hour < 24 && minute < 60 && second < 60) {
        return Err(Error::DateTimeParseError(s.to_owned()));
    }
    let ts = civil_to_ts(c);
    proof {
        assert(c == civil_of_chars(s@));
    }
    Ok(ts)
}

fn parse_two_digits(s: &str, i: usize) -> (r: Option<u64>)
    requires
        i + 2 <= s@.len() <= usize::MAX,
    ensures
        (r is Some) == (is_digit_char(s@[i as int]) && is_digit_char(s@[i + 1])),
        r is Some ==> r->Some_0 as int == parse2(s@, i as int) && r->Some_0 <= 99,
{
    let hi = match digit_of(s.get_char(i)) {
        Some(v) => v,
        None => {
            return None;
        },
    };
    let lo = match digit_of(s.get_char(i + 1)) {
        Some(v) => v,
        None => {
            return None;
        },
    };
    Some(hi * 10 + lo)
}

fn parse_four_digits(s: &str, i: usize) -> (r: Option<u64>)
    requires
        i + 4 <= s@.len() <= usize::MAX,
    ensures
        (r is Some) == (is_digit_char(s@[i as int]) && is_digit_char(s@[i + 1]) && is_digit_char(
            s@[i + 2],
        ) && is_digit_char(s@[i + 3])),
        r is Some ==> r->Some_0 as int == parse4(s@, i as int) && r->Some_0 <= 9999,
{
    let hi = match parse_two_digits(s, i) {
        Some(v) => v,
        None => {
            return None;
        },
    };
    let lo = match parse_two_digits(s, i + 2) {
        Some(v) => v,
        None => {
            return None;
        },
    };
    Some(hi * 100 + lo)
}

} // verus!

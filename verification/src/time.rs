//! UTC timestamps at whole-second precision and their RFC 3339 text form.

use vstd::prelude::*;

use chrono::Datelike;
use chrono::Timelike;

verus! {

/// A UTC wall-clock instant, held as plain calendar fields and rendered
/// as RFC 3339 text with second precision, e.g. `1996-12-19T16:39:57Z`.
#[derive(Clone, Copy, PartialEq, Eq, Structural, Debug)]
pub struct Timestamp {
    pub year: u32,
    pub month: u32,
    pub day: u32,
    pub hour: u32,
    pub minute: u32,
    pub second: u32,
}

impl Timestamp {
    /// Every field fits its calendar range and the year has four digits.
    pub open spec fn wf(self) -> bool {
        &&& self.year <= 9999
        &&& 1 <= self.month <= 12
        &&& 1 <= self.day <= 31
        &&& self.hour <= 23
        &&& self.minute <= 59
        &&& self.second <= 59
    }
}

/// The decimal digit character for `d` in `0..10`.
pub open spec fn digit_char(d: int) -> char {
    if d == 0 {
        '0'
    } else if d == 1 {
        '1'
    } else if d == 2 {
        '2'
    } else if d == 3 {
        '3'
    } else if d == 4 {
        '4'
    } else if d == 5 {
        '5'
    } else if d == 6 {
        '6'
    } else if d == 7 {
        '7'
    } else if d == 8 {
        '8'
    } else {
        '9'
    }
}

/// The digit value of `c`, or `-1` when `c` is not a decimal digit.
pub open spec fn digit_val(c: char) -> int {
    if c == '0' {
        0
    } else if c == '1' {
        1
    } else if c == '2' {
        2
    } else if c == '3' {
        3
    } else if c == '4' {
        4
    } else if c == '5' {
        5
    } else if c == '6' {
        6
    } else if c == '7' {
        7
    } else if c == '8' {
        8
    } else if c == '9' {
        9
    } else {
        -1
    }
}

/// `n` in `0..100` written with exactly two digits.
pub open spec fn two_digits(n: int) -> Seq<char> {
    seq![digit_char(n / 10), digit_char(n % 10)]
}

/// `n` in `0..10000` written with exactly four digits.
pub open spec fn four_digits(n: int) -> Seq<char> {
    seq![
        digit_char(n / 1000),
        digit_char((n / 100) % 10),
        digit_char((n / 10) % 10),
        digit_char(n % 10),
    ]
}

/// The RFC 3339 rendering of `t`: `YYYY-MM-DDThh:mm:ssZ`.
pub open spec fn rfc3339_of(t: Timestamp) -> Seq<char> {
    four_digits(t.year as int) + seq!['-'] + two_digits(t.month as int) + seq!['-'] + two_digits(
        t.day as int,
    ) + seq!['T'] + two_digits(t.hour as int) + seq![':'] + two_digits(t.minute as int) + seq![':']
        + two_digits(t.second as int) + seq!['Z']
}

/// Relies on `String::push`: appends exactly the given character.
pub assume_specification[ String::push ](s: &mut String, ch: char)
    ensures
        final(s)@ == old(s)@.push(ch),
;

fn push_digit(out: &mut String, d: u32)
    requires
        d < 10,
    ensures
        final(out)@ == old(out)@.push(digit_char(d as int)),
{
    if d == 0 {
        out.push('0');
    } else if d == 1 {
        out.push('1');
    } else if d == 2 {
        out.push('2');
    } else if d == 3 {
        out.push('3');
    } else if d == 4 {
        out.push('4');
    } else if d == 5 {
        out.push('5');
    } else if d == 6 {
        out.push('6');
    } else if d == 7 {
        out.push('7');
    } else if d == 8 {
        out.push('8');
    } else {
        out.push('9');
    }
}

fn push_two_digits(out: &mut String, n: u32)
    requires
        n < 100,
    ensures
        final(out)@ == old(out)@ + two_digits(n as int),
{
    push_digit(out, n / 10);
    push_digit(out, n % 10);
    assert(out@ =~= old(out)@ + two_digits(n as int));
}

impl Timestamp {
    /// Render as RFC 3339 with second precision, UTC `Z` suffix.
    pub fn to_rfc3339(&self) -> (r: String)
        requires
            self.wf(),
        ensures
            r@ == rfc3339_of(*self),
    {
        let mut out = String::new();
        push_digit(&mut out, self.year / 1000);
        push_digit(&mut out, (self.year / 100) % 10);
        push_digit(&mut out, (self.year / 10) % 10);
        push_digit(&mut out, self.year % 10);
        out.push('-');
        push_two_digits(&mut out, self.month);
        out.push('-');
        push_two_digits(&mut out, self.day);
        out.push('T');
        push_two_digits(&mut out, self.hour);
        out.push(':');
        push_two_digits(&mut out, self.minute);
        out.push(':');
        push_two_digits(&mut out, self.second);
        out.push('Z');
        assert(out@ =~= rfc3339_of(*self));
        out
    }
}

/// What a 20-character RFC 3339 second-precision UTC string denotes,
/// or `None` when the text is not of that exact shape.
pub open spec fn spec_parse_rfc3339(s: Seq<char>) -> Option<Timestamp> {
    if s.len() == 20 && s[4] == '-' && s[7] == '-' && s[10] == 'T' && s[13] == ':' && s[16] == ':'
        && s[19] == 'Z' && digit_val(s[0]) >= 0 && digit_val(s[1]) >= 0 && digit_val(s[2]) >= 0
        && digit_val(s[3]) >= 0 && digit_val(s[5]) >= 0 && digit_val(s[6]) >= 0 && digit_val(s[8])
        >= 0 && digit_val(s[9]) >= 0 && digit_val(s[11]) >= 0 && digit_val(s[12]) >= 0 && digit_val(
        s[14],
    ) >= 0 && digit_val(s[15]) >= 0 && digit_val(s[17]) >= 0 && digit_val(s[18]) >= 0 {
        let t = Timestamp {
            year: (digit_val(s[0]) * 1000 + digit_val(s[1]) * 100 + digit_val(s[2]) * 10
                + digit_val(s[3])) as u32,
            month: (digit_val(s[5]) * 10 + digit_val(s[6])) as u32,
            day: (digit_val(s[8]) * 10 + digit_val(s[9])) as u32,
            hour: (digit_val(s[11]) * 10 + digit_val(s[12])) as u32,
            minute: (digit_val(s[14]) * 10 + digit_val(s[15])) as u32,
            second: (digit_val(s[17]) * 10 + digit_val(s[18])) as u32,
        };
        if t.wf() {
            Some(t)
        } else {
            None
        }
    } else {
        None
    }
}

pub(crate) fn digit_of(c: char) -> (r: Option<u32>)
    ensures
        match r {
            Some(d) => d < 10 && digit_val(c) == d as int,
            None => digit_val(c) < 0,
        },
{
    if c == '0' {
        Some(0)
    } else if c == '1' {
        Some(1)
    } else if c == '2' {
        Some(2)
    } else if c == '3' {
        Some(3)
    } else if c == '4' {
        Some(4)
    } else if c == '5' {
        Some(5)
    } else if c == '6' {
        Some(6)
    } else if c == '7' {
        Some(7)
    } else if c == '8' {
        Some(8)
    } else if c == '9' {
        Some(9)
    } else {
        None
    }
}

impl Timestamp {
    /// Read back a timestamp from its exact RFC 3339 second-precision form.
    pub fn parse_rfc3339(s: &str) -> (r: Option<Timestamp>)
        ensures
            r == spec_parse_rfc3339(s@),
    {
        if s.unicode_len() != 20 {
            return None;
        }
        if s.get_char(4) != '-' || s.get_char(7) != '-' || s.get_char(10) != 'T' || s.get_char(13)
            != ':' || s.get_char(16) != ':' || s.get_char(19) != 'Z' {
            return None;
        }
        let d0 = digit_of(s.get_char(0));
        let d1 = digit_of(s.get_char(1));
        let d2 = digit_of(s.get_char(2));
        let d3 = digit_of(s.get_char(3));
        let d5 = digit_of(s.get_char(5));
        let d6 = digit_of(s.get_char(6));
        let d8 = digit_of(s.get_char(8));
        let d9 = digit_of(s.get_char(9));
        let d11 = digit_of(s.get_char(11));
        let d12 = digit_of(s.get_char(12));
        let d14 = digit_of(s.get_char(14));
        let d15 = digit_of(s.get_char(15));
        let d17 = digit_of(s.get_char(17));
        let d18 = digit_of(s.get_char(18));
        match (d0, d1, d2, d3, d5, d6, d8, d9, d11, d12, d14, d15, d17, d18) {
            (
                Some(y0),
                Some(y1),
                Some(y2),
                Some(y3),
                Some(mo0),
                Some(mo1),
                Some(da0),
                Some(da1),
                Some(h0),
                Some(h1),
                Some(mi0),
                Some(mi1),
                Some(s0),
                Some(s1),
            ) => {
                let t = Timestamp {
                    year: y0 * 1000 + y1 * 100 + y2 * 10 + y3,
                    month: mo0 * 10 + mo1,
                    day: da0 * 10 + da1,
                    hour: h0 * 10 + h1,
                    minute: mi0 * 10 + mi1,
                    second: s0 * 10 + s1,
                };
                if 1 <= t.month && t.month <= 12 && 1 <= t.day && t.day <= 31 && t.hour <= 23
                    && t.minute <= 59 && t.second <= 59 {
                    Some(t)
                } else {
                    None
                }
            },
            _ => None,
        }
    }
}

/// A digit character reads back as the digit it was written from.
proof fn lemma_digit_char_val(d: int)
    requires
        0 <= d < 10,
    ensures
        digit_val(digit_char(d)) == d,
{
}

/// Rendering a well-formed timestamp and reading the text back yields
/// the same timestamp: the RFC 3339 form is lossless at second precision.
pub proof fn lemma_rfc3339_round_trip(t: Timestamp)
    requires
        t.wf(),
    ensures
        spec_parse_rfc3339(rfc3339_of(t)) == Some(t),
{
    let s = rfc3339_of(t);
    let y = t.year as int;
    let mo = t.month as int;
    let da = t.day as int;
    let h = t.hour as int;
    let mi = t.minute as int;
    let sec = t.second as int;
    assert(s.len() == 20);
    assert(s[0] == digit_char(y / 1000));
    assert(s[1] == digit_char((y / 100) % 10));
    assert(s[2] == digit_char((y / 10) % 10));
    assert(s[3] == digit_char(y % 10));
    assert(s[4] == '-');
    assert(s[5] == digit_char(mo / 10));
    assert(s[6] == digit_char(mo % 10));
    assert(s[7] == '-');
    assert(s[8] == digit_char(da / 10));
    assert(s[9] == digit_char(da % 10));
    assert(s[10] == 'T');
    assert(s[11] == digit_char(h / 10));
    assert(s[12] == digit_char(h % 10));
    assert(s[13] == ':');
    assert(s[14] == digit_char(mi / 10));
    assert(s[15] == digit_char(mi % 10));
    assert(s[16] == ':');
    assert(s[17] == digit_char(sec / 10));
    assert(s[18] == digit_char(sec % 10));
    assert(s[19] == 'Z');
    assert forall|d: int| 0 <= d < 10 implies digit_val(digit_char(d)) == d by {
        lemma_digit_char_val(d);
    }
    assert(y == (y / 1000) * 1000 + ((y / 100) % 10) * 100 + ((y / 10) % 10) * 10 + y % 10);
    assert(mo == (mo / 10) * 10 + mo % 10);
    assert(da == (da / 10) * 10 + da % 10);
    assert(h == (h / 10) * 10 + h % 10);
    assert(mi == (mi / 10) * 10 + mi % 10);
    assert(sec == (sec / 10) * 10 + sec % 10);
}

/// Relies on `chrono::Utc::now` and its `Datelike` / `Timelike`
/// accessors for the current UTC wall-clock time: `month` is 1..=12,
/// `day` is 1..=31, `hour` is 0..=23, `minute` and `second` are 0..=59.
#[verifier::external_body]
fn utc_now_fields() -> (r: (i64, u32, u32, u32, u32, u32))
    ensures
        1 <= r.1 <= 12,
        1 <= r.2 <= 31,
        r.3 <= 23,
        r.4 <= 59,
        r.5 <= 59,
{
    let now = chrono::Utc::now();
    (now.year() as i64, now.month(), now.day(), now.hour(), now.minute(), now.second())
}

/// The current UTC time, degraded to the nearest representable year on a
/// machine whose clock lies outside the four-digit calendar.
pub fn now_utc() -> (t: Timestamp)
    ensures
        t.wf(),
{
    let (y, month, day, hour, minute, second) = utc_now_fields();
    let year: u32 = if y < 0 {
        0
    } else if y > 9999 {
        9999
    } else {
        y as u32
    };
    Timestamp { year, month, day, hour, minute, second }
}

} // verus!

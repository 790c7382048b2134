//! Parsing a caller-supplied RFC 3339 timestamp and rendering the argument
//! handed to the host's date-setting facility.

use vstd::prelude::*;
use vstd::string::*;
use chrono::Datelike;
use chrono::Timelike;

verus! {

#[verifier::external_type_specification]
#[verifier::external_body]
pub struct ExParseError(chrono::ParseError);

/// A local date and time as written in a timestamp, offset not applied.
/// `nanosecond` reaches past one second only within a leap second.
#[derive(Clone, Copy, Debug, PartialEq, Eq)]
pub struct Timestamp {
    pub year: i32,
    pub month: u32,
    pub day: u32,
    pub hour: u32,
    pub minute: u32,
    pub second: u32,
    pub nanosecond: u32,
}

impl Timestamp {
    pub open spec fn wf(&self) -> bool {
        &&& 0 <= self.year <= 9999
        &&& 1 <= self.month <= 12
        &&& 1 <= self.day <= 31
        &&& self.hour < 24
        &&& self.minute < 60
        &&& self.second < 60
        &&& self.nanosecond < 2_000_000_000
    }
}

/// What chrono's RFC 3339 parser makes of a text.
pub uninterp spec fn rfc3339_parse(s: Seq<char>) -> Option<Timestamp>;

/// Relies on chrono's `DateTime::parse_from_rfc3339`: the local fields of the
/// parsed value (a four-digit year, and chrono's ranges for the other fields),
/// or its error.
#[verifier::external_body]
fn parse_rfc3339(s: &str) -> (r: Result<Timestamp, chrono::ParseError>)
    ensures
        r is Ok <==> rfc3339_parse(s@) is Some,
        r matches Ok(t) ==> rfc3339_parse(s@) == Some(t) && t.wf(),
{
    match chrono::DateTime::parse_from_rfc3339(s) {
        Ok(d) => Ok(Timestamp {
            year: d.year(),
            month: d.month(),
            day: d.day(),
            hour: d.hour(),
            minute: d.minute(),
            second: d.second(),
            nanosecond: d.nanosecond(),
        }),
        Err(e) => Err(e),
    }
}

pub open spec fn digit_char(d: nat) -> char {
    (48 + d) as char
}

/// The last `width` decimal digits of `n`, zero-padded.
pub open spec fn padded(n: nat, width: nat) -> Seq<char>
    decreases width,
{
    if width == 0 {
        Seq::empty()
    } else {
        padded(n / 10, (width - 1) as nat).push(digit_char(n % 10))
    }
}

/// `YYYY-MM-DD HH:MM:SS.mmm`, seconds counting a leap second as 60 and the
/// fraction cut to milliseconds.
pub open spec fn clock_text(t: Timestamp) -> Seq<char> {
    padded(t.year as nat, 4) + seq!['-'] + padded(t.month as nat, 2) + seq!['-'] + padded(
        t.day as nat,
        2,
    ) + seq![' '] + padded(t.hour as nat, 2) + seq![':'] + padded(t.minute as nat, 2) + seq![':']
        + padded((t.second + t.nanosecond / 1_000_000_000) as nat, 2) + seq!['.'] + padded(
        (t.nanosecond / 1_000_000 % 1000) as nat,
        3,
    )
}

/// The timestamp was not valid RFC 3339.
#[derive(Clone, Copy, Debug, PartialEq, Eq)]
pub enum ClockError {
    InvalidDatetime,
}

fn push_digit(out: &mut String, d: u32)
    requires
        d < 10,
    ensures
        final(out)@ == old(out)@.push(digit_char(d as nat)),
{
    proof {
        reveal_strlit("0");
        reveal_strlit("1");
        reveal_strlit("2");
        reveal_strlit("3");
        reveal_strlit("4");
        reveal_strlit("5");
        reveal_strlit("6");
        reveal_strlit("7");
        reveal_strlit("8");
        reveal_strlit("9");
    }
    let s = if d == 0 {
        "0"
    } else if d == 1 {
        "1"
    } else if d == 2 {
        "2"
    } else if d == 3 {
        "3"
    } else if d == 4 {
        "4"
    } else if d == 5 {
        "5"
    } else if d == 6 {
        "6"
    } else if d == 7 {
        "7"
    } else if d == 8 {
        "8"
    } else {
        "9"
    };
    assert(s@ =~= seq![digit_char(d as nat)]);
    out.append(s);
}

fn push_padded(out: &mut String, n: u32, width: u32)
    ensures
        final(out)@ == old(out)@ + padded(n as nat, width as nat),
    decreases width,
{
    if width == 0 {
        assert(old(out)@ + padded(n as nat, 0) =~= old(out)@);
    } else {
        push_padded(out, n / 10, width - 1);
        push_digit(out, n % 10);
        assert(final(out)@ =~= old(out)@ + padded(n as nat, width as nat));
    }
}

fn push_char(out: &mut String, s: &str)
    ensures
        final(out)@ == old(out)@ + s@,
{
    out.append(s);
}

/// Renders a parsed timestamp as the argument for the host's date facility.
pub fn format_clock(t: &Timestamp) -> (r: String)
    requires
        t.wf(),
    ensures
        r@ == clock_text(*t),
{
    proof {
        reveal_strlit("-");
        reveal_strlit(" ");
        reveal_strlit(":");
        reveal_strlit(".");
    }
    let mut out = String::new();
    push_padded(&mut out, t.year as u32, 4);
    push_char(&mut out, "-");
    push_padded(&mut out, t.month, 2);
    push_char(&mut out, "-");
    push_padded(&mut out, t.day, 2);
    push_char(&mut out, " ");
    push_padded(&mut out, t.hour, 2);
    push_char(&mut out, ":");
    push_padded(&mut out, t.minute, 2);
    push_char(&mut out, ":");
    push_padded(&mut out, t.second + t.nanosecond / 1_000_000_000, 2);
    push_char(&mut out, ".");
    push_padded(&mut out, t.nanosecond / 1_000_000 % 1000, 3);
    assert(out@ =~= clock_text(*t));
    out
}

/// Parses `datetime` as RFC 3339 and renders the clock argument, or rejects it.
pub fn prepare_clock(datetime: &str) -> (r: Result<String, ClockError>)
    ensures
        r is Err <==> rfc3339_parse(datetime@) is None,
        r matches Ok(s) ==> s@ == clock_text(rfc3339_parse(datetime@)->Some_0),
{
    match parse_rfc3339(datetime) {
        Ok(t) => Ok(format_clock(&t)),
        Err(_) => Err(ClockError::InvalidDatetime),
    }
}

} // verus!

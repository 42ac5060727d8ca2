//! Date-time handling: a plain-value model of a parsed RFC 3339 instant, a
//! trusted parse through chrono, a fixed `YYYY-MM-DD HH:MM` display, and the
//! signed difference of two instants in whole minutes.

use vstd::prelude::*;
use crate::strutil::{digit, digit_char, push_char};
use chrono::Datelike;
use chrono::Timelike;

verus! {

/// One parsed instant, as plain values: the calendar fields as written in
/// the text (so in the text's own offset), plus the corresponding universal
/// time in milliseconds since the Unix epoch.
#[derive(Clone, Copy, Debug, PartialEq, Eq, Structural)]
pub struct Instant {
    pub year: i32,
    pub month: u8,
    pub day: u8,
    pub hour: u8,
    pub minute: u8,
    pub second: u8,
    pub epoch_millis: i64,
}

impl Instant {
    /// Field bounds forced by the RFC 3339 grammar: a four-digit year and
    /// in-range calendar and clock fields, which also bound the epoch value.
    pub open spec fn wf(self) -> bool {
        &&& 0 <= self.year <= 9999
        &&& 1 <= self.month <= 12
        &&& 1 <= self.day <= 31
        &&& self.hour <= 23
        &&& self.minute <= 59
        &&& self.second <= 59
        &&& -63_000_000_000_000 <= self.epoch_millis <= 254_000_000_000_000
    }
}

/// What the RFC 3339 parser yields on a given text: an instant where the
/// text is a valid RFC 3339 date-time, and nothing otherwise.
pub uninterp spec fn rfc3339_instant(s: Seq<char>) -> Option<Instant>;

/// Relies on `chrono::DateTime::parse_from_rfc3339`, the `Datelike` and
/// `Timelike` accessors, and `timestamp_millis`: a strict RFC 3339 parse
/// whose outcome depends on the text alone, with calendar fields in the
/// grammar's ranges (chrono reports a leap second as second 59). On failure
/// the parse error's own rendering comes back as opaque text, of which
/// nothing is assumed.
#[verifier::external_body]
fn parse_rfc3339(s: &str) -> (r: Result<Instant, String>)
    ensures
        match r {
            Ok(i) => rfc3339_instant(s@) == Some(i) && i.wf(),
            Err(_) => rfc3339_instant(s@) is None,
        },
{
    match chrono::DateTime::parse_from_rfc3339(s) {
        Ok(dt) => Ok(
            Instant {
                year: dt.year(),
                month: dt.month() as u8,
                day: dt.day() as u8,
                hour: dt.hour() as u8,
                minute: dt.minute() as u8,
                second: dt.second() as u8,
                epoch_millis: dt.timestamp_millis(),
            },
        ),
        Err(e) => Err(e.to_string()),
    }
}

/// A malformed date-time text. The message names what failed and carries
/// the parser's own account of the fault after a colon.
#[derive(Clone, Debug)]
pub struct ParseError {
    pub message: String,
}

/// Builds a parse error whose message is the given prefix followed by the
/// parser's account of the fault.
fn prefixed_error(prefix: &str, detail: &str) -> (e: ParseError)
    ensures
        e.message@ == prefix@ + detail@,
        prefix@.is_prefix_of(e.message@),
{
    let mut message = prefix.to_owned();
    message.append(detail);
    proof {
        assert(message@.subrange(0, prefix@.len() as int) =~= prefix@);
    }
    ParseError { message }
}

/// Two decimal digits, zero padded.
pub open spec fn pad2(n: int) -> Seq<char> {
    seq![digit_char(n / 10 % 10), digit_char(n % 10)]
}

/// Four decimal digits, zero padded.
pub open spec fn pad4(n: int) -> Seq<char> {
    seq![
        digit_char(n / 1000 % 10),
        digit_char(n / 100 % 10),
        digit_char(n / 10 % 10),
        digit_char(n % 10),
    ]
}

/// The display form of an instant: `YYYY-MM-DD HH:MM`.
pub open spec fn instant_display(i: Instant) -> Seq<char> {
    pad4(i.year as int) + seq!['-'] + pad2(i.month as int) + seq!['-'] + pad2(i.day as int)
        + seq![' '] + pad2(i.hour as int) + seq![':'] + pad2(i.minute as int)
}

/// Pushes the two zero-padded decimal digits of `n` onto `out`.
fn push_pad2(n: u8, out: &mut String)
    requires
        n < 100,
    ensures
        final(out)@ == old(out)@ + pad2(n as int),
{
    push_char(out, digit(n / 10));
    push_char(out, digit(n % 10));
    proof {
        assert(out@ =~= old(out)@ + pad2(n as int));
    }
}

/// Renders an instant in the fixed `YYYY-MM-DD HH:MM` form.
pub fn format_instant(i: &Instant) -> (r: String)
    requires
        i.wf(),
    ensures
        r@ == instant_display(*i),
{
    let mut out = String::new();
    let y = i.year as u32;
    push_char(&mut out, digit((y / 1000 % 10) as u8));
    push_char(&mut out, digit((y / 100 % 10) as u8));
    push_char(&mut out, digit((y / 10 % 10) as u8));
    push_char(&mut out, digit((y % 10) as u8));
    push_char(&mut out, '-');
    push_pad2(i.month, &mut out);
    push_char(&mut out, '-');
    push_pad2(i.day, &mut out);
    push_char(&mut out, ' ');
    push_pad2(i.hour, &mut out);
    push_char(&mut out, ':');
    push_pad2(i.minute, &mut out);
    proof {
        assert(out@ =~= instant_display(*i));
    }
    out
}

/// Parses an RFC 3339 date-time text and renders it as `YYYY-MM-DD HH:MM`,
/// in the offset the text itself carries.
pub fn parse_datetime(datetime_str: &str) -> (r: Result<String, ParseError>)
    ensures
        match r {
            Ok(s) => rfc3339_instant(datetime_str@) matches Some(i) && s@ == instant_display(i),
            Err(e) => rfc3339_instant(datetime_str@) is None && "Invalid datetime: "@.is_prefix_of(
                e.message@,
            ),
        },
{
    match parse_rfc3339(datetime_str) {
        Ok(i) => Ok(format_instant(&i)),
        Err(detail) => Err(prefixed_error("Invalid datetime: ", detail.as_str())),
    }
}

/// Division by sixty thousand, truncated toward zero.
pub open spec fn millis_to_minutes(d: int) -> int {
    if d < 0 {
        -((-d) / 60000)
    } else {
        d / 60000
    }
}

/// The signed difference, end minus start, in whole minutes truncated
/// toward zero.
pub open spec fn duration_minutes(start: Instant, end: Instant) -> int {
    millis_to_minutes(end.epoch_millis - start.epoch_millis)
}

/// Parses two RFC 3339 texts and returns their difference, end minus start,
/// in whole minutes truncated toward zero.
pub fn calculate_duration(start: &str, end: &str) -> (r: Result<i64, ParseError>)
    ensures
        match r {
            Ok(m) => rfc3339_instant(start@) matches Some(si) && rfc3339_instant(end@)
                matches Some(ei) && m == duration_minutes(si, ei),
            Err(e) => (rfc3339_instant(start@) is None && "Invalid start datetime: "@.is_prefix_of(
                e.message@,
            )) || (rfc3339_instant(start@) is Some && rfc3339_instant(end@) is None
                && "Invalid end datetime: "@.is_prefix_of(e.message@)),
        },
{
    let si = match parse_rfc3339(start) {
        Ok(i) => i,
        Err(detail) => {
            return Err(prefixed_error("Invalid start datetime: ", detail.as_str()));
        },
    };
    let ei = match parse_rfc3339(end) {
        Ok(i) => i,
        Err(detail) => {
            return Err(prefixed_error("Invalid end datetime: ", detail.as_str()));
        },
    };
    let diff: i64 = ei.epoch_millis - si.epoch_millis;
    if diff < 0 {
        let q = ((-diff) as u64) / 60000;
        Ok(-(q as i64))
    } else {
        let q = (diff as u64) / 60000;
        Ok(q as i64)
    }
}

/// Swapping the two instants negates the minute difference: truncation
/// toward zero is symmetric around zero.
pub proof fn lemma_duration_antisymmetric(a: Instant, b: Instant)
    ensures
        duration_minutes(a, b) == -duration_minutes(b, a),
{
}

} // verus!

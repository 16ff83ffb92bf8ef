use vstd::prelude::*;

use std::fmt::Write;

verus! {

pub const TS_FMT_LONG: &'static str = "%Y-%m-%d %H:%M:%S";

pub const TS_FMT_SHORT: &'static str = "%b %d %H:%M";

pub const TS_FMT_SHORT_YEAR: &'static str = "%Y %b %d %H:%M";

pub const TS_NONE: &'static str = "(none)";

/// The text that chrono writes for the UTC time `ts` seconds after the epoch
/// under the strftime-style format `fmt`; `None` where the time is out of
/// chrono's range or the format is malformed.
pub uninterp spec fn timestamp_text(fmt: Seq<char>, ts: int) -> Option<Seq<char>>;

/// Relies on chrono's NaiveDateTime::from_timestamp_opt and its `format`:
/// the text depends on the format and the seconds alone.
#[verifier::external_body]
#[allow(deprecated)]
fn format_timestamp(fmt: &str, ts: i64) -> (r: Option<String>)
    ensures
        r is Some <==> timestamp_text(fmt@, ts as int) is Some,
        r is Some ==> r->0@ == timestamp_text(fmt@, ts as int)->0,
{
    let mut out = String::new();
    match chrono::NaiveDateTime::from_timestamp_opt(ts, 0) {
        Some(d) => match write!(out, "{}", d.format(fmt)) {
            Ok(()) => Some(out),
            Err(_) => None,
        },
        None => None,
    }
}

/// The text of `ts` under `fmt`: `(none)` for the zero timestamp and where
/// chrono gives no text.
pub open spec fn ts_text(fmt: Seq<char>, ts: int) -> Seq<char> {
    if ts == 0 {
        TS_NONE@
    } else {
        match timestamp_text(fmt, ts) {
            Some(t) => t,
            None => TS_NONE@,
        }
    }
}

/// Formats a unix timestamp, in seconds, with a strftime-style format.
pub fn ts_fmt(fmt: &str, ts: i64) -> (r: String)
    ensures
        r@ == ts_text(fmt@, ts as int),
{
    if ts == 0 {
        TS_NONE.to_owned()
    } else {
        match format_timestamp(fmt, ts) {
            Some(s) => s,
            None => TS_NONE.to_owned(),
        }
    }
}

/// Timestamp texts in the formats this program uses.
pub trait TimeStampFormats {
    fn ts_long(self) -> String;

    fn ts_short(self) -> String;

    fn ts_short_y(self) -> String;
}

impl TimeStampFormats for i64 {
    fn ts_long(self) -> (r: String)
        ensures
            r@ == ts_text(TS_FMT_LONG@, self as int),
    {
        ts_fmt(TS_FMT_LONG, self)
    }

    fn ts_short(self) -> (r: String)
        ensures
            r@ == ts_text(TS_FMT_SHORT@, self as int),
    {
        ts_fmt(TS_FMT_SHORT, self)
    }

    fn ts_short_y(self) -> (r: String)
        ensures
            r@ == ts_text(TS_FMT_SHORT_YEAR@, self as int),
    {
        ts_fmt(TS_FMT_SHORT_YEAR, self)
    }
}

} // verus!

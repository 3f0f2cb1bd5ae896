//! Points in time as plain values, and the calls into `chrono` that read the
//! clock, parse and render them.

use std::fmt::Write;
use vstd::prelude::*;

verus! {

/// An instant together with the local UTC offset that was in force for it:
/// `secs` seconds and `nanos` nanoseconds after the Unix epoch (UTC), shown
/// with an offset of `offset` seconds east of UTC.
#[derive(Clone, Copy, Debug, PartialEq, Eq, Structural)]
pub struct LocalTime {
    pub secs: i64,
    pub nanos: u32,
    pub offset: i32,
}

/// What `chrono` renders for the instant `secs`/`nanos` shown at offset
/// `offset` with the strftime pattern `fmt`; `None` when `chrono` refuses the
/// values or the pattern.
pub uninterp spec fn chrono_format(secs: i64, nanos: u32, offset: i32, fmt: Seq<char>) -> Option<Seq<char>>;

/// `chrono`'s `Display` rendering of the instant `secs`/`nanos` shown at
/// offset `offset`; `None` when `chrono` refuses the values.
pub uninterp spec fn chrono_display(secs: i64, nanos: u32, offset: i32) -> Option<Seq<char>>;

/// The instant (seconds and nanoseconds after the epoch, UTC) that `chrono`
/// parses from an RFC 3339 text; `None` when `chrono` rejects the text.
pub uninterp spec fn rfc3339_instant(text: Seq<char>) -> Option<(i64, u32)>;

/// A UTC offset that `chrono` accepts: strictly within one day.
pub open spec fn valid_offset(offset: i32) -> bool {
    -86_400 < offset && offset < 86_400
}

/// Reads the clock: wraps `chrono::Local::now`.
///
/// Claims only that the offset is strictly within one day (`FixedOffset`
/// cannot hold more) and that the sub-second part is below two seconds
/// (`chrono` exceeds one second only inside a leap second). Which instant and
/// which offset come back depends on the clock and the machine's time zone.
#[verifier::external_body]
pub fn clock_now() -> (t: LocalTime)
    ensures
        valid_offset(t.offset),
        t.nanos < 2_000_000_000,
{
    let now = chrono::Local::now();
    LocalTime {
        secs: now.timestamp(),
        nanos: now.timestamp_subsec_nanos(),
        offset: chrono::Offset::fix(now.offset()).local_minus_utc(),
    }
}

/// Parses an RFC 3339 text and shows the instant in the machine's time zone:
/// wraps `chrono::DateTime::parse_from_rfc3339` followed by
/// `with_timezone(&chrono::Local)`.
///
/// Claims that a value comes back exactly when the text parses, and that it
/// holds the parsed instant. The offset depends on the machine's time zone;
/// of it only the one-day bound is claimed.
#[verifier::external_body]
pub fn parse_rfc3339_local(text: &str) -> (r: Option<LocalTime>)
    ensures
        r.is_some() == rfc3339_instant(text@).is_some(),
        r matches Some(t) ==> {
            &&& (t.secs, t.nanos) == rfc3339_instant(text@).unwrap()
            &&& valid_offset(t.offset)
            &&& t.nanos < 2_000_000_000
        },
{
    match chrono::DateTime::parse_from_rfc3339(text) {
        Ok(dt) => {
            let local = dt.with_timezone(&chrono::Local);
            Some(LocalTime {
                secs: local.timestamp(),
                nanos: local.timestamp_subsec_nanos(),
                offset: chrono::Offset::fix(local.offset()).local_minus_utc(),
            })
        },
        Err(_) => None,
    }
}

/// Renders a time with a strftime pattern: wraps
/// `chrono::DateTime::<FixedOffset>::format`, after rebuilding the value with
/// `FixedOffset::east_opt` and `DateTime::from_timestamp`.
///
/// Claims that the result is `chrono_format` of the arguments.
#[verifier::external_body]
pub fn format_time(t: &LocalTime, fmt: &str) -> (r: Option<String>)
    ensures
        r matches Some(s) ==> chrono_format(t.secs, t.nanos, t.offset, fmt@) == Some(s@),
        r is None ==> chrono_format(t.secs, t.nanos, t.offset, fmt@) is None,
{
    let offset = chrono::FixedOffset::east_opt(t.offset)?;
    let dt = chrono::DateTime::from_timestamp(t.secs, t.nanos)?.with_timezone(&offset);
    let mut s = String::new();
    match write!(s, "{}", dt.format(fmt)) {
        Ok(()) => Some(s),
        Err(_) => None,
    }
}

/// Renders a time the way `chrono` displays a `DateTime`: wraps the `Display`
/// impl of `chrono::DateTime<FixedOffset>`, after rebuilding the value with
/// `FixedOffset::east_opt` and `DateTime::from_timestamp`.
///
/// Claims that the result is `chrono_display` of the arguments.
#[verifier::external_body]
pub fn display_time(t: &LocalTime) -> (r: Option<String>)
    ensures
        r matches Some(s) ==> chrono_display(t.secs, t.nanos, t.offset) == Some(s@),
        r is None ==> chrono_display(t.secs, t.nanos, t.offset) is None,
{
    let offset = chrono::FixedOffset::east_opt(t.offset)?;
    let dt = chrono::DateTime::from_timestamp(t.secs, t.nanos)?.with_timezone(&offset);
    Some(format!("{}", dt))
}

} // verus!

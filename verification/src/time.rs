//! Local timestamps and the spans between them.
//!
//! A [`Timestamp`] holds, as plain integers, what a `chrono::DateTime<Local>`
//! holds: an instant in Unix time and the local offset in effect at it. The
//! clock and the calendar rendering are chrono's.

use vstd::prelude::*;

verus! {

/// The earliest Unix second that chrono's `DateTime` represents (January 1 of year -262143).
pub const MIN_UNIX_SECS: i64 = -8334601315200i64;

/// The last Unix second that chrono's `DateTime` represents (December 31 of year 262142).
pub const MAX_UNIX_SECS: i64 = 8210266876799i64;

/// Nanoseconds in one second.
pub const NANOS_PER_SEC: i64 = 1000000000i64;

/// An instant with the local UTC offset in effect at it.
#[derive(Clone, Copy, Debug, PartialEq, Eq)]
pub struct Timestamp {
    /// Whole seconds since 1970-01-01T00:00:00Z.
    pub secs: i64,
    /// Nanoseconds past `secs`.
    pub nanos: u32,
    /// Seconds that local time is ahead of UTC.
    pub offset_secs: i32,
}

impl Timestamp {
    /// The timestamp lies in chrono's range, with an offset chrono accepts.
    pub open spec fn wf(self) -> bool {
        &&& MIN_UNIX_SECS <= self.secs <= MAX_UNIX_SECS
        &&& self.nanos < 1000000000
        &&& -86400 < self.offset_secs < 86400
    }

    /// The instant in nanoseconds since the Unix epoch.
    pub open spec fn instant_nanos(self) -> int {
        self.secs * 1000000000 + self.nanos
    }
}

/// A signed length of time, in nanoseconds.
#[derive(Clone, Copy, Debug, PartialEq, Eq)]
pub struct TimeSpan {
    /// The length in nanoseconds; negative when the end precedes the start.
    pub nanoseconds: i128,
}

/// The largest span between two timestamps in range, in nanoseconds.
pub open spec fn max_span_nanos() -> int {
    (MAX_UNIX_SECS - MIN_UNIX_SECS + 1) * 1000000000
}

/// Division of `a` by a positive `b`, rounding toward zero as Rust's `/` does.
pub open spec fn div_toward_zero(a: int, b: int) -> int {
    if a >= 0 {
        a / b
    } else {
        -((-a) / b)
    }
}

/// Whole seconds in `nanos` nanoseconds, rounded toward zero.
pub open spec fn whole_seconds(nanos: int) -> int {
    div_toward_zero(nanos, 1000000000)
}

/// Whole minutes in `nanos` nanoseconds, rounded toward zero.
pub open spec fn whole_minutes(nanos: int) -> int {
    div_toward_zero(whole_seconds(nanos), 60)
}

/// Whole hours in `nanos` nanoseconds, rounded toward zero.
pub open spec fn whole_hours(nanos: int) -> int {
    div_toward_zero(whole_seconds(nanos), 3600)
}

impl TimeSpan {
    /// The span is one between two timestamps in range.
    pub open spec fn wf(self) -> bool {
        -max_span_nanos() <= self.nanoseconds <= max_span_nanos()
    }

    /// Whole seconds, rounded toward zero (chrono's `num_seconds`).
    pub open spec fn spec_seconds(self) -> int {
        whole_seconds(self.nanoseconds as int)
    }

    /// Whole minutes, rounded toward zero (chrono's `num_minutes`).
    pub open spec fn spec_minutes(self) -> int {
        whole_minutes(self.nanoseconds as int)
    }

    /// Whole hours, rounded toward zero (chrono's `num_hours`).
    pub open spec fn spec_hours(self) -> int {
        whole_hours(self.nanoseconds as int)
    }

    /// The span from `start` to `end`.
    pub fn between(end: Timestamp, start: Timestamp) -> (span: TimeSpan)
        requires
            end.wf(),
            start.wf(),
        ensures
            span.wf(),
            span.nanoseconds == end.instant_nanos() - start.instant_nanos(),
    {
        let secs: i128 = end.secs as i128 - start.secs as i128;
        let nanos: i128 = end.nanos as i128 - start.nanos as i128;
        TimeSpan { nanoseconds: secs * 1000000000 + nanos }
    }

    /// Whole seconds of the span, rounded toward zero.
    pub fn num_seconds(&self) -> (s: i64)
        requires
            self.wf(),
        ensures
            s == self.spec_seconds(),
    {
        if self.nanoseconds >= 0 {
            (self.nanoseconds / 1000000000) as i64
        } else {
            let magnitude: i128 = -self.nanoseconds;
            -((magnitude / 1000000000) as i64)
        }
    }

    /// Whole minutes of the span, rounded toward zero.
    pub fn num_minutes(&self) -> (m: i64)
        requires
            self.wf(),
        ensures
            m == self.spec_minutes(),
    {
        let s = self.num_seconds();
        if s >= 0 {
            s / 60
        } else {
            -((-s) / 60)
        }
    }

    /// Whole hours of the span, rounded toward zero.
    pub fn num_hours(&self) -> (h: i64)
        requires
            self.wf(),
        ensures
            h == self.spec_hours(),
    {
        let s = self.num_seconds();
        if s >= 0 {
            s / 3600
        } else {
            -((-s) / 3600)
        }
    }
}

/// The text that chrono renders for the instant `secs`/`nanos` at local offset
/// `offset_secs` under the strftime `pattern`.
pub uninterp spec fn local_time_text(secs: i64, nanos: u32, offset_secs: i32, pattern: Seq<char>) -> Seq<char>;

/// The strftime patterns that the library renders timestamps with.
pub open spec fn is_time_pattern(pattern: Seq<char>) -> bool {
    ||| pattern == "%Y-%m-%d %H:%M"@
    ||| pattern == "%B %d, %Y"@
    ||| pattern == "%I:%M %p"@
    ||| pattern == "%B %d, %Y at %I:%M %p"@
    ||| pattern == "%H:%M:%S"@
    ||| pattern == "%Y%m%d_%H%M%S"@
}

/// The rendering of timestamp `t` under `pattern`.
pub open spec fn time_text(t: Timestamp, pattern: Seq<char>) -> Seq<char> {
    local_time_text(t.secs, t.nanos, t.offset_secs, pattern)
}

/// Renders `t` under `pattern` with chrono: `DateTime::from_timestamp` at the
/// offset `FixedOffset::east_opt(offset)`, then `format(pattern).to_string()`.
/// Trusted: the text is `local_time_text` of the timestamp's fields and the
/// pattern, which is a function of them alone. Both constructors succeed on a
/// well-formed timestamp, and the patterns admitted are valid strftime.
#[verifier::external_body]
pub(crate) fn format_local_time(t: &Timestamp, pattern: &str) -> (text: String)
    requires
        t.wf(),
        is_time_pattern(pattern@),
    ensures
        text@ == local_time_text(t.secs, t.nanos, t.offset_secs, pattern@),
{
    let offset = chrono::FixedOffset::east_opt(t.offset_secs).unwrap();
    let utc = chrono::DateTime::from_timestamp(t.secs, t.nanos).unwrap();
    utc.with_timezone(&offset).format(pattern).to_string()
}

/// Reads the clock: the system time converted by chrono's
/// `From<SystemTime> for DateTime<Local>`, which takes times before 1970 as
/// negative Unix seconds.
/// Trusted: the instant is in chrono's range with sub-second nanoseconds below
/// one second (chrono splits the system time so), and the offset is a
/// `FixedOffset`, strictly within one day. Nothing is said of which instant
/// it is. Chrono itself still panics when the clock reads beyond its years
/// ±262142, or when the system's time-zone data yields no offset.
#[verifier::external_body]
pub(crate) fn now() -> (t: Timestamp)
    ensures
        t.wf(),
{
    let now = chrono::DateTime::<chrono::Local>::from(std::time::SystemTime::now());
    Timestamp {
        secs: now.timestamp(),
        nanos: now.timestamp_subsec_nanos(),
        offset_secs: now.offset().local_minus_utc(),
    }
}

} // verus!

//! The instant at which an event was created, and its textual forms.

use chrono::DateTime;
use chrono::FixedOffset;
use std::fmt::Write;
use vstd::prelude::*;

verus! {

/// First second that a [`Timestamp`] can hold: 0000-01-02T00:00:00Z.
pub const MIN_SECS: i64 = -62_167_132_800;

/// Last second that a [`Timestamp`] can hold: 9999-12-30T23:59:59Z.
pub const MAX_SECS: i64 = 253_402_214_399;

/// Largest offset from UTC, in seconds, in either direction.
pub const MAX_OFFSET: i32 = 86_399;

/// Largest nanosecond part.
pub const MAX_NANOS: u32 = 999_999_999;

/// An instant together with the local offset from UTC that was in force when
/// it was captured. Local time is therefore a property of the value, and every
/// rendering of it is the same.
///
/// The ranges keep the local calendar year between 0 and 9999, the years that
/// every supported textual form can express.
#[derive(Clone, Copy, Debug)]
pub struct Timestamp {
    secs: i64,
    nanos: u32,
    utc_offset: i32,
}

/// The spec-level value of a [`Timestamp`].
pub struct Instant {
    pub secs: int,
    pub nanos: int,
    pub utc_offset: int,
}

pub open spec fn in_range(secs: int, nanos: int, utc_offset: int) -> bool {
    &&& MIN_SECS <= secs <= MAX_SECS
    &&& 0 <= nanos <= MAX_NANOS
    &&& -MAX_OFFSET <= utc_offset <= MAX_OFFSET
}

pub open spec fn clamp(value: int, low: int, high: int) -> int {
    if value < low {
        low
    } else if value > high {
        high
    } else {
        value
    }
}

/// What chrono's `DateTime::<FixedOffset>::to_rfc2822` returns for the instant
/// `secs`.`nanos` after the Unix epoch, shown at `utc_offset` seconds east of
/// UTC.
pub uninterp spec fn rfc2822_text(secs: int, nanos: int, utc_offset: int) -> Seq<char>;

/// What chrono's `DateTime::<FixedOffset>::to_rfc3339` returns for that
/// instant and offset.
pub uninterp spec fn rfc3339_text(secs: int, nanos: int, utc_offset: int) -> Seq<char>;

/// What chrono's `Display` for `DateTime<FixedOffset>` writes for that instant
/// and offset.
pub uninterp spec fn plain_text(secs: int, nanos: int, utc_offset: int) -> Seq<char>;

/// What chrono's `DateTime::<FixedOffset>::format` writes for that instant and
/// offset under the strftime-style `pattern`, or `None` where chrono reports
/// the pattern as one it cannot format.
pub uninterp spec fn pattern_text(secs: int, nanos: int, utc_offset: int, pattern: Seq<char>) -> Option<Seq<char>>;

impl View for Timestamp {
    type V = Instant;

    closed spec fn view(&self) -> Instant {
        Instant { secs: self.secs as int, nanos: self.nanos as int, utc_offset: self.utc_offset as int }
    }
}

impl Instant {
    pub open spec fn valid(self) -> bool {
        in_range(self.secs, self.nanos, self.utc_offset)
    }

    pub open spec fn rfc2822(self) -> Seq<char> {
        rfc2822_text(self.secs, self.nanos, self.utc_offset)
    }

    pub open spec fn rfc3339(self) -> Seq<char> {
        rfc3339_text(self.secs, self.nanos, self.utc_offset)
    }

    pub open spec fn plain(self) -> Seq<char> {
        plain_text(self.secs, self.nanos, self.utc_offset)
    }

    pub open spec fn pattern(self, pattern: Seq<char>) -> Option<Seq<char>> {
        pattern_text(self.secs, self.nanos, self.utc_offset, pattern)
    }
}

/// Calls `time::get_time`: seconds and nanoseconds of the system clock since
/// the Unix epoch. Nothing is claimed of the reading.
#[verifier::external_body]
fn read_clock() -> (reading: (i64, i32)) {
    let now = time::get_time();
    (now.sec, now.nsec)
}

/// Calls `time::at` and returns the `tm_utcoff` of its result: the offset of
/// local time from UTC, in seconds, that the machine's time zone gives at
/// `secs`. Nothing is claimed of the offset. `time::at` panics where the
/// platform cannot break `secs` down into a calendar date, which the platforms
/// do for every year of four digits.
#[verifier::external_body]
fn local_offset(secs: i64) -> (utc_offset: i32)
    requires
        MIN_SECS <= secs <= MAX_SECS,
{
    time::at(time::Timespec { sec: secs, nsec: 0 }).tm_utcoff
}

/// Calls chrono's `DateTime::to_rfc2822` on the timestamp, converted with
/// `DateTime::from_timestamp`, `FixedOffset::east_opt` and
/// `DateTime::with_timezone`. The conversions are defined on every valid
/// timestamp, and `to_rfc2822` on every local year from 0 to 9999.
#[verifier::external_body]
fn chrono_rfc2822(secs: i64, nanos: u32, utc_offset: i32) -> (text: String)
    requires
        in_range(secs as int, nanos as int, utc_offset as int),
    ensures
        text@ == rfc2822_text(secs as int, nanos as int, utc_offset as int),
{
    let zone = FixedOffset::east_opt(utc_offset).unwrap();
    DateTime::from_timestamp(secs, nanos).unwrap().with_timezone(&zone).to_rfc2822()
}

/// Calls chrono's `DateTime::to_rfc3339` on the timestamp, converted as for
/// RFC 2822.
#[verifier::external_body]
fn chrono_rfc3339(secs: i64, nanos: u32, utc_offset: i32) -> (text: String)
    requires
        in_range(secs as int, nanos as int, utc_offset as int),
    ensures
        text@ == rfc3339_text(secs as int, nanos as int, utc_offset as int),
{
    let zone = FixedOffset::east_opt(utc_offset).unwrap();
    DateTime::from_timestamp(secs, nanos).unwrap().with_timezone(&zone).to_rfc3339()
}

/// Calls chrono's `Display` for `DateTime<FixedOffset>` on the timestamp,
/// converted as for RFC 2822.
#[verifier::external_body]
fn chrono_plain(secs: i64, nanos: u32, utc_offset: i32) -> (text: String)
    requires
        in_range(secs as int, nanos as int, utc_offset as int),
    ensures
        text@ == plain_text(secs as int, nanos as int, utc_offset as int),
{
    let zone = FixedOffset::east_opt(utc_offset).unwrap();
    DateTime::from_timestamp(secs, nanos).unwrap().with_timezone(&zone).to_string()
}

/// Calls chrono's `DateTime::format` with `pattern` on the timestamp,
/// converted as for RFC 2822, and writes the result out. Chrono reports a
/// pattern that it cannot format as an error of the write, which becomes
/// `None` here.
#[verifier::external_body]
fn chrono_pattern(secs: i64, nanos: u32, utc_offset: i32, pattern: &str) -> (text: Option<String>)
    requires
        in_range(secs as int, nanos as int, utc_offset as int),
    ensures
        match text {
            Some(t) => pattern_text(secs as int, nanos as int, utc_offset as int, pattern@) == Some(t@),
            None => pattern_text(secs as int, nanos as int, utc_offset as int, pattern@).is_none(),
        },
{
    let zone = FixedOffset::east_opt(utc_offset).unwrap();
    let at = DateTime::from_timestamp(secs, nanos).unwrap().with_timezone(&zone);
    let mut out = String::new();
    match write!(out, "{}", at.format(pattern)) {
        Ok(()) => Some(out),
        Err(_) => None,
    }
}

fn clamp_secs(secs: i64) -> (r: i64)
    ensures
        r == clamp(secs as int, MIN_SECS as int, MAX_SECS as int),
{
    if secs < MIN_SECS {
        MIN_SECS
    } else if secs > MAX_SECS {
        MAX_SECS
    } else {
        secs
    }
}

fn clamp_nanos(nanos: i32) -> (r: u32)
    ensures
        r == clamp(nanos as int, 0, MAX_NANOS as int),
{
    if nanos < 0 {
        0
    } else if nanos > 999_999_999 {
        MAX_NANOS
    } else {
        nanos as u32
    }
}

fn clamp_offset(utc_offset: i32) -> (r: i32)
    ensures
        r == clamp(utc_offset as int, -MAX_OFFSET, MAX_OFFSET as int),
{
    if utc_offset < -MAX_OFFSET {
        -MAX_OFFSET
    } else if utc_offset > MAX_OFFSET {
        MAX_OFFSET
    } else {
        utc_offset
    }
}

impl Timestamp {
    #[verifier::type_invariant]
    spec fn well_formed(self) -> bool {
        in_range(self.secs as int, self.nanos as int, self.utc_offset as int)
    }

    /// The timestamp of `secs` seconds and `nanos` nanoseconds after the Unix
    /// epoch at `utc_offset` seconds east of UTC, where all three are in
    /// range.
    pub fn new(secs: i64, nanos: u32, utc_offset: i32) -> (made: Option<Timestamp>)
        ensures
            made is Some <==> in_range(secs as int, nanos as int, utc_offset as int),
            made matches Some(t) ==> t@ == (Instant {
                secs: secs as int,
                nanos: nanos as int,
                utc_offset: utc_offset as int,
            }),
    {
        if MIN_SECS <= secs && secs <= MAX_SECS && nanos <= MAX_NANOS && -MAX_OFFSET <= utc_offset
            && utc_offset <= MAX_OFFSET {
            Some(Timestamp { secs, nanos, utc_offset })
        } else {
            None
        }
    }

    /// The timestamp nearest to the three readings: each is moved to the
    /// nearest bound of its range where it lies outside.
    pub fn saturating(secs: i64, nanos: i32, utc_offset: i32) -> (made: Timestamp)
        ensures
            made@ == (Instant {
                secs: clamp(secs as int, MIN_SECS as int, MAX_SECS as int),
                nanos: clamp(nanos as int, 0, MAX_NANOS as int),
                utc_offset: clamp(utc_offset as int, -MAX_OFFSET, MAX_OFFSET as int),
            }),
    {
        Timestamp {
            secs: clamp_secs(secs),
            nanos: clamp_nanos(nanos),
            utc_offset: clamp_offset(utc_offset),
        }
    }

    /// The current reading of the system clock with the machine's local
    /// offset, brought into range. The reading differs from call to call, so
    /// only its validity is known.
    pub fn now() -> (made: Timestamp)
        ensures
            made@.valid(),
    {
        let (secs, nanos) = read_clock();
        let secs = clamp_secs(secs);
        let utc_offset = local_offset(secs);
        Timestamp::saturating(secs, nanos, utc_offset)
    }

    pub fn secs(&self) -> (r: i64)
        ensures
            r == self@.secs,
    {
        self.secs
    }

    pub fn nanos(&self) -> (r: u32)
        ensures
            r == self@.nanos,
    {
        self.nanos
    }

    pub fn utc_offset(&self) -> (r: i32)
        ensures
            r == self@.utc_offset,
    {
        self.utc_offset
    }

    /// The timestamp in the form of RFC 2822.
    pub fn to_rfc2822(&self) -> (text: String)
        ensures
            text@ == self@.rfc2822(),
    {
        proof {
            use_type_invariant(self);
        }
        chrono_rfc2822(self.secs, self.nanos, self.utc_offset)
    }

    /// The timestamp in the form of RFC 3339.
    pub fn to_rfc3339(&self) -> (text: String)
        ensures
            text@ == self@.rfc3339(),
    {
        proof {
            use_type_invariant(self);
        }
        chrono_rfc3339(self.secs, self.nanos, self.utc_offset)
    }

    /// The timestamp in the default form: date, time and offset.
    pub fn to_text(&self) -> (text: String)
        ensures
            text@ == self@.plain(),
    {
        proof {
            use_type_invariant(self);
        }
        chrono_plain(self.secs, self.nanos, self.utc_offset)
    }

    /// The timestamp under a strftime-style pattern, or `None` where the
    /// pattern cannot be formatted.
    pub fn format(&self, pattern: &str) -> (text: Option<String>)
        ensures
            match text {
                Some(t) => self@.pattern(pattern@) == Some(t@),
                None => self@.pattern(pattern@).is_none(),
            },
    {
        proof {
            use_type_invariant(self);
        }
        chrono_pattern(self.secs, self.nanos, self.utc_offset, pattern)
    }
}

} // verus!

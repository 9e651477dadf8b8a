//! Temporal types: Date, LocalTime, ZonedTime, LocalDateTime, ZonedDateTime,
//! Duration, and their wire-message counterparts.
//!
//! The wire counterparts mirror the wire schema: composite messages hold
//! their sub-messages as `Option`, since a wire message may omit them. The
//! conversions into the internal types substitute defaults for absent
//! sub-messages; the conversions out always populate them.

use vstd::prelude::*;

verus! {

/// Calendar date.
#[derive(Debug, Clone, Copy, PartialEq, Eq, Structural)]
pub struct Date {
    /// Year (can be negative for BCE).
    pub year: i32,
    /// Month (1-12).
    pub month: u32,
    /// Day (1-31).
    pub day: u32,
}

/// Time without timezone.
#[derive(Debug, Clone, Copy, PartialEq, Eq, Structural)]
pub struct LocalTime {
    /// Hour (0-23).
    pub hour: u32,
    /// Minute (0-59).
    pub minute: u32,
    /// Second (0-59).
    pub second: u32,
    /// Nanosecond (0-999999999).
    pub nanosecond: u32,
}

/// Time with UTC offset.
#[derive(Debug, Clone, Copy, PartialEq, Eq, Structural)]
pub struct ZonedTime {
    /// The time component.
    pub time: LocalTime,
    /// UTC offset in minutes.
    pub offset_minutes: i32,
}

/// Date and time without timezone.
#[derive(Debug, Clone, Copy, PartialEq, Eq, Structural)]
pub struct LocalDateTime {
    /// The date component.
    pub date: Date,
    /// The time component.
    pub time: LocalTime,
}

/// Date and time with UTC offset.
#[derive(Debug, Clone, Copy, PartialEq, Eq, Structural)]
pub struct ZonedDateTime {
    /// The date component.
    pub date: Date,
    /// The time component.
    pub time: LocalTime,
    /// UTC offset in minutes.
    pub offset_minutes: i32,
}

/// Temporal duration with two components per ISO/IEC 39075.
#[derive(Debug, Clone, Copy, PartialEq, Eq, Structural)]
pub struct Duration {
    /// Year-to-month component.
    pub months: i64,
    /// Day-to-second component in nanoseconds.
    pub nanoseconds: i64,
}

// ============================================================================
// Wire counterparts
// ============================================================================

/// Wire form of a calendar date.
#[derive(Debug, Clone, Copy, PartialEq, Eq, Structural)]
pub struct WireDate {
    /// Year.
    pub year: i32,
    /// Month.
    pub month: u32,
    /// Day.
    pub day: u32,
}

/// Wire form of a time without timezone.
#[derive(Debug, Clone, Copy, PartialEq, Eq, Structural)]
pub struct WireLocalTime {
    /// Hour.
    pub hour: u32,
    /// Minute.
    pub minute: u32,
    /// Second.
    pub second: u32,
    /// Nanosecond.
    pub nanosecond: u32,
}

/// Wire form of a time with UTC offset; the time sub-message may be absent.
#[derive(Debug, Clone, Copy, PartialEq, Eq, Structural)]
pub struct WireZonedTime {
    /// The time sub-message.
    pub time: Option<WireLocalTime>,
    /// UTC offset in minutes.
    pub offset_minutes: i32,
}

/// Wire form of a datetime; the sub-messages may be absent.
#[derive(Debug, Clone, Copy, PartialEq, Eq, Structural)]
pub struct WireLocalDateTime {
    /// The date sub-message.
    pub date: Option<WireDate>,
    /// The time sub-message.
    pub time: Option<WireLocalTime>,
}

/// Wire form of a zoned datetime; the sub-messages may be absent.
#[derive(Debug, Clone, Copy, PartialEq, Eq, Structural)]
pub struct WireZonedDateTime {
    /// The date sub-message.
    pub date: Option<WireDate>,
    /// The time sub-message.
    pub time: Option<WireLocalTime>,
    /// UTC offset in minutes.
    pub offset_minutes: i32,
}

/// Wire form of a duration.
#[derive(Debug, Clone, Copy, PartialEq, Eq, Structural)]
pub struct WireDuration {
    /// Year-to-month component.
    pub months: i64,
    /// Day-to-second component in nanoseconds.
    pub nanoseconds: i64,
}

// ============================================================================
// Defaults for absent sub-messages
// ============================================================================

/// The date an absent wire date sub-message maps to.
pub open spec fn spec_default_date() -> Date {
    Date { year: 0, month: 0, day: 0 }
}

/// The time an absent wire time sub-message maps to.
pub open spec fn spec_default_local_time() -> LocalTime {
    LocalTime { hour: 0, minute: 0, second: 0, nanosecond: 0 }
}

// ============================================================================
// Conversions: internal -> wire
// ============================================================================

/// The wire form of a date.
pub open spec fn spec_date_to_wire(d: Date) -> WireDate {
    WireDate { year: d.year, month: d.month, day: d.day }
}

/// The wire form of a time.
pub open spec fn spec_local_time_to_wire(t: LocalTime) -> WireLocalTime {
    WireLocalTime { hour: t.hour, minute: t.minute, second: t.second, nanosecond: t.nanosecond }
}

impl Date {
    /// Encode this date in its wire form.
    pub fn to_wire(self) -> (w: WireDate)
        ensures
            w == spec_date_to_wire(self),
    {
        WireDate { year: self.year, month: self.month, day: self.day }
    }

    /// Decode a wire date.
    pub fn from_wire(w: WireDate) -> (d: Date)
        ensures
            d == (Date { year: w.year, month: w.month, day: w.day }),
    {
        Date { year: w.year, month: w.month, day: w.day }
    }

    /// Decode an optional wire date sub-message, defaulting when absent.
    pub fn from_wire_opt(w: Option<WireDate>) -> (d: Date)
        ensures
            d == spec_date_from_wire_opt(w),
    {
        match w {
            Some(p) => Date::from_wire(p),
            None => Date { year: 0, month: 0, day: 0 },
        }
    }
}

/// The date denoted by an optional wire date sub-message.
pub open spec fn spec_date_from_wire_opt(w: Option<WireDate>) -> Date {
    match w {
        Some(p) => Date { year: p.year, month: p.month, day: p.day },
        None => spec_default_date(),
    }
}

impl LocalTime {
    /// Encode this time in its wire form.
    pub fn to_wire(self) -> (w: WireLocalTime)
        ensures
            w == spec_local_time_to_wire(self),
    {
        WireLocalTime {
            hour: self.hour,
            minute: self.minute,
            second: self.second,
            nanosecond: self.nanosecond,
        }
    }

    /// Decode a wire time.
    pub fn from_wire(w: WireLocalTime) -> (t: LocalTime)
        ensures
            t == (LocalTime {
                hour: w.hour,
                minute: w.minute,
                second: w.second,
                nanosecond: w.nanosecond,
            }),
    {
        LocalTime { hour: w.hour, minute: w.minute, second: w.second, nanosecond: w.nanosecond }
    }

    /// Decode an optional wire time sub-message, defaulting when absent.
    pub fn from_wire_opt(w: Option<WireLocalTime>) -> (t: LocalTime)
        ensures
            t == spec_local_time_from_wire_opt(w),
    {
        match w {
            Some(p) => LocalTime::from_wire(p),
            None => LocalTime { hour: 0, minute: 0, second: 0, nanosecond: 0 },
        }
    }
}

/// The time denoted by an optional wire time sub-message.
pub open spec fn spec_local_time_from_wire_opt(w: Option<WireLocalTime>) -> LocalTime {
    match w {
        Some(p) => LocalTime {
            hour: p.hour,
            minute: p.minute,
            second: p.second,
            nanosecond: p.nanosecond,
        },
        None => spec_default_local_time(),
    }
}

impl ZonedTime {
    /// Encode this zoned time in its wire form; the time sub-message is
    /// always populated.
    pub fn to_wire(self) -> (w: WireZonedTime)
        ensures
            w.time == Some(spec_local_time_to_wire(self.time)),
            w.offset_minutes == self.offset_minutes,
    {
        WireZonedTime { time: Some(self.time.to_wire()), offset_minutes: self.offset_minutes }
    }

    /// Decode a wire zoned time, defaulting an absent time sub-message.
    pub fn from_wire(w: WireZonedTime) -> (t: ZonedTime)
        ensures
            t.time == spec_local_time_from_wire_opt(w.time),
            t.offset_minutes == w.offset_minutes,
    {
        ZonedTime { time: LocalTime::from_wire_opt(w.time), offset_minutes: w.offset_minutes }
    }
}

impl LocalDateTime {
    /// Encode this datetime in its wire form; the sub-messages are always
    /// populated.
    pub fn to_wire(self) -> (w: WireLocalDateTime)
        ensures
            w.date == Some(spec_date_to_wire(self.date)),
            w.time == Some(spec_local_time_to_wire(self.time)),
    {
        WireLocalDateTime { date: Some(self.date.to_wire()), time: Some(self.time.to_wire()) }
    }

    /// Decode a wire datetime, defaulting absent sub-messages.
    pub fn from_wire(w: WireLocalDateTime) -> (t: LocalDateTime)
        ensures
            t.date == spec_date_from_wire_opt(w.date),
            t.time == spec_local_time_from_wire_opt(w.time),
    {
        LocalDateTime { date: Date::from_wire_opt(w.date), time: LocalTime::from_wire_opt(w.time) }
    }
}

impl ZonedDateTime {
    /// Encode this zoned datetime in its wire form; the sub-messages are
    /// always populated.
    pub fn to_wire(self) -> (w: WireZonedDateTime)
        ensures
            w.date == Some(spec_date_to_wire(self.date)),
            w.time == Some(spec_local_time_to_wire(self.time)),
            w.offset_minutes == self.offset_minutes,
    {
        WireZonedDateTime {
            date: Some(self.date.to_wire()),
            time: Some(self.time.to_wire()),
            offset_minutes: self.offset_minutes,
        }
    }

    /// Decode a wire zoned datetime, defaulting absent sub-messages.
    pub fn from_wire(w: WireZonedDateTime) -> (t: ZonedDateTime)
        ensures
            t.date == spec_date_from_wire_opt(w.date),
            t.time == spec_local_time_from_wire_opt(w.time),
            t.offset_minutes == w.offset_minutes,
    {
        ZonedDateTime {
            date: Date::from_wire_opt(w.date),
            time: LocalTime::from_wire_opt(w.time),
            offset_minutes: w.offset_minutes,
        }
    }
}

impl Duration {
    /// Encode this duration in its wire form.
    pub fn to_wire(self) -> (w: WireDuration)
        ensures
            w == (WireDuration { months: self.months, nanoseconds: self.nanoseconds }),
    {
        WireDuration { months: self.months, nanoseconds: self.nanoseconds }
    }

    /// Decode a wire duration.
    pub fn from_wire(w: WireDuration) -> (d: Duration)
        ensures
            d == (Duration { months: w.months, nanoseconds: w.nanoseconds }),
    {
        Duration { months: w.months, nanoseconds: w.nanoseconds }
    }
}

} // verus!

//! Civil (calendar) time in the policy's timezone, and the computation of
//! age-based rotation deadlines.
//!
//! All engine reasoning happens on plain calendar fields; only reading the
//! current time goes through an unverified call into `chrono`.

use vstd::prelude::*;
use chrono::Datelike;
use chrono::Timelike;
use crate::config::{LogRollerError, LogRollerMeta, RotationAge, TimeZone};

verus! {

/// A civil date and time, in the timezone the policy selected. No offset is
/// stored: one roller always computes with a single zone.
#[derive(Debug, Clone, Copy, PartialEq, Eq, Structural)]
pub struct DateTime {
    pub year: i32,
    pub month: u8,
    pub day: u8,
    pub hour: u8,
    pub minute: u8,
    pub second: u8,
}

pub open spec fn is_leap_year(y: int) -> bool {
    y % 4 == 0 && (y % 100 != 0 || y % 400 == 0)
}

pub open spec fn days_in_month(y: int, m: int) -> int {
    if m == 2 {
        if is_leap_year(y) { 29 } else { 28 }
    } else if m == 4 || m == 6 || m == 9 || m == 11 {
        30
    } else {
        31
    }
}

impl DateTime {
    /// The fields name a real calendar instant (year unconstrained).
    pub open spec fn calendar_ok(&self) -> bool {
        &&& 1 <= self.month <= 12
        &&& 1 <= self.day <= days_in_month(self.year as int, self.month as int)
        &&& self.hour < 24
        &&& self.minute < 60
        &&& self.second < 60
    }

    /// A calendar instant the engine can format and advance: four-digit year.
    pub open spec fn dt_ok(&self) -> bool {
        self.calendar_ok() && 0 <= self.year <= 9999
    }

    /// A single integer that orders instants exactly as the lexicographic
    /// order on (year, month, day, hour, minute, second) does, since each
    /// field stays below its multiplier.
    pub open spec fn stamp(&self) -> int {
        ((((self.year * 13 + self.month) * 32 + self.day) * 24 + self.hour) * 60
            + self.minute) * 60 + self.second
    }

    /// The stamp as a machine integer.
    pub fn stamp_value(&self) -> (r: u64)
        requires
            self.dt_ok(),
        ensures
            r == self.stamp(),
    {
        ((((self.year as u64 * 13 + self.month as u64) * 32 + self.day as u64) * 24
            + self.hour as u64) * 60 + self.minute as u64) * 60 + self.second as u64
    }
}

/// Whether `now` has reached or passed `deadline`.
pub fn at_or_past(now: &DateTime, deadline: &DateTime) -> (r: bool)
    requires
        now.dt_ok(),
        deadline.dt_ok(),
    ensures
        r == (deadline.stamp() <= now.stamp()),
{
    deadline.stamp_value() <= now.stamp_value()
}

/// The day after `dt`'s date, at midnight.
pub open spec fn spec_succ_date(dt: DateTime) -> DateTime {
    if (dt.day as int) < days_in_month(dt.year as int, dt.month as int) {
        DateTime {
            year: dt.year,
            month: dt.month,
            day: (dt.day + 1) as u8,
            hour: 0,
            minute: 0,
            second: 0,
        }
    } else if dt.month < 12 {
        DateTime { year: dt.year, month: (dt.month + 1) as u8, day: 1, hour: 0, minute: 0, second: 0 }
    } else {
        DateTime { year: (dt.year + 1) as i32, month: 1, day: 1, hour: 0, minute: 0, second: 0 }
    }
}

/// The next rotation deadline after `dt`: the start of the next granularity
/// unit. Truncating (rather than rounding up) means the first interval after
/// construction may be shorter than a whole unit; that is intended.
pub open spec fn spec_next_time(dt: DateTime, rotation_age: RotationAge) -> DateTime {
    match rotation_age {
        RotationAge::Minutely => {
            if dt.minute < 59 {
                DateTime {
                    year: dt.year,
                    month: dt.month,
                    day: dt.day,
                    hour: dt.hour,
                    minute: (dt.minute + 1) as u8,
                    second: 0,
                }
            } else if dt.hour < 23 {
                DateTime {
                    year: dt.year,
                    month: dt.month,
                    day: dt.day,
                    hour: (dt.hour + 1) as u8,
                    minute: 0,
                    second: 0,
                }
            } else {
                spec_succ_date(dt)
            }
        }
        RotationAge::Hourly => {
            if dt.hour < 23 {
                DateTime {
                    year: dt.year,
                    month: dt.month,
                    day: dt.day,
                    hour: (dt.hour + 1) as u8,
                    minute: 0,
                    second: 0,
                }
            } else {
                spec_succ_date(dt)
            }
        }
        RotationAge::Daily => spec_succ_date(dt),
    }
}

/// A deadline is strictly later than the instant it was computed from, and is
/// itself a well-formed instant.
pub proof fn lemma_next_time_advances(dt: DateTime, rotation_age: RotationAge)
    requires
        dt.dt_ok(),
        dt.year <= 9998,
    ensures
        spec_next_time(dt, rotation_age).dt_ok(),
        dt.stamp() < spec_next_time(dt, rotation_age).stamp(),
{
}

fn days_in_month_x(y: i32, m: u8) -> (r: u8)
    requires
        0 <= y,
        1 <= m <= 12,
    ensures
        r == days_in_month(y as int, m as int),
{
    if m == 2 {
        if y % 4 == 0 && (y % 100 != 0 || y % 400 == 0) { 29 } else { 28 }
    } else if m == 4 || m == 6 || m == 9 || m == 11 {
        30
    } else {
        31
    }
}

fn succ_date(dt: &DateTime) -> (r: DateTime)
    requires
        dt.dt_ok(),
        dt.year <= 9998,
    ensures
        r == spec_succ_date(*dt),
{
    if dt.day < days_in_month_x(dt.year, dt.month) {
        DateTime { year: dt.year, month: dt.month, day: dt.day + 1, hour: 0, minute: 0, second: 0 }
    } else if dt.month < 12 {
        DateTime { year: dt.year, month: dt.month + 1, day: 1, hour: 0, minute: 0, second: 0 }
    } else {
        DateTime { year: dt.year + 1, month: 1, day: 1, hour: 0, minute: 0, second: 0 }
    }
}

impl LogRollerMeta {
    /// The deadline that follows `base_datetime` at the given granularity.
    /// Always succeeds on a well-formed instant.
    pub fn next_time(&self, base_datetime: &DateTime, rotation_age: &RotationAge) -> (r: Result<
        DateTime,
        LogRollerError,
    >)
        requires
            base_datetime.dt_ok(),
            base_datetime.year <= 9998,
        ensures
            r == Ok::<DateTime, LogRollerError>(spec_next_time(*base_datetime, *rotation_age)),
    {
        let d = match rotation_age {
            RotationAge::Minutely => {
                if base_datetime.minute < 59 {
                    DateTime {
                        year: base_datetime.year,
                        month: base_datetime.month,
                        day: base_datetime.day,
                        hour: base_datetime.hour,
                        minute: base_datetime.minute + 1,
                        second: 0,
                    }
                } else if base_datetime.hour < 23 {
                    DateTime {
                        year: base_datetime.year,
                        month: base_datetime.month,
                        day: base_datetime.day,
                        hour: base_datetime.hour + 1,
                        minute: 0,
                        second: 0,
                    }
                } else {
                    succ_date(base_datetime)
                }
            }
            RotationAge::Hourly => {
                if base_datetime.hour < 23 {
                    DateTime {
                        year: base_datetime.year,
                        month: base_datetime.month,
                        day: base_datetime.day,
                        hour: base_datetime.hour + 1,
                        minute: 0,
                        second: 0,
                    }
                } else {
                    succ_date(base_datetime)
                }
            }
            RotationAge::Daily => succ_date(base_datetime),
        };
        Ok(d)
    }

    /// The current civil time in the policy's timezone.
    pub fn now(&self) -> (r: DateTime)
        requires
            self.time_zone.wf(),
        ensures
            r.calendar_ok(),
    {
        now_in_zone(&self.time_zone)
    }
}

/// Relies on `chrono::Utc::now` / `chrono::Local::now` for the current time,
/// `chrono::FixedOffset::east_opt` (defined for offsets under a day) and
/// `chrono::DateTime::with_timezone` for the zone change, and the `Datelike` /
/// `Timelike` accessors, which always return fields of a real calendar date.
/// Caveat: `chrono::Utc::now` itself aborts on a system clock set before the
/// Unix epoch; no argument can exclude that environment.
#[verifier::external_body]
fn now_in_zone(tz: &TimeZone) -> (r: DateTime)
    requires
        tz.wf(),
    ensures
        r.calendar_ok(),
{
    let offset = match tz {
        TimeZone::UTC => chrono::FixedOffset::east_opt(0).unwrap(),
        TimeZone::Local => *chrono::Local::now().offset(),
        TimeZone::Fix(secs) => chrono::FixedOffset::east_opt(*secs).unwrap(),
    };
    let t = chrono::Utc::now().with_timezone(&offset);
    DateTime {
        year: t.year(),
        month: t.month() as u8,
        day: t.day() as u8,
        hour: t.hour() as u8,
        minute: t.minute() as u8,
        second: t.second() as u8,
    }
}

} // verus!

//! Timestamps reconstructed from the header's packed date fields.
//!
//! The format gives no timezone; all timestamps are naive civil times. A
//! month byte of zero is tolerated and treated as January, a quirk observed
//! in real-world files; any other out-of-range component is a fatal error.

use vstd::prelude::*;

use crate::DecodeError;

verus! {

/// A validated naive civil time, to minute precision.
#[derive(Clone, Copy, Debug, PartialEq, Eq, Structural)]
pub struct SpcDateTime {
    pub year: u16,
    pub month: u8,
    pub day: u8,
    pub hour: u8,
    pub minute: u8,
}

/// Gregorian leap-year rule.
pub open spec fn is_leap_year(y: int) -> bool {
    y % 4 == 0 && (y % 100 != 0 || y % 400 == 0)
}

/// Days in a month of the proleptic Gregorian calendar; zero for an invalid
/// month number.
pub open spec fn days_in_month(y: int, m: int) -> int {
    if m == 1 || m == 3 || m == 5 || m == 7 || m == 8 || m == 10 || m == 12 {
        31
    } else if m == 4 || m == 6 || m == 9 || m == 11 {
        30
    } else if m == 2 {
        if is_leap_year(y) {
            29
        } else {
            28
        }
    } else {
        0
    }
}

/// Whether the components form a valid civil time.
pub open spec fn valid_civil(y: int, m: int, d: int, h: int, min: int) -> bool {
    1 <= m <= 12 && 1 <= d <= days_in_month(y, m) && 0 <= h <= 23 && 0 <= min <= 59
}

impl SpcDateTime {
    /// Every value of this type is a valid civil time; the month is already
    /// normalized (a raw month byte of zero became January).
    pub open spec fn wf(self) -> bool {
        valid_civil(self.year as int, self.month as int, self.day as int, self.hour as int,
            self.minute as int)
    }
}

/// The timestamp composed from raw header fields: the month is normalized
/// (zero means January), then the civil time is validated. A failure reports
/// the raw components.
pub open spec fn spec_compose_datetime(year: u16, month: u8, day: u8, hour: u8, minute: u8)
    -> Result<SpcDateTime, DecodeError> {
    let m = if month == 0 {
        1u8
    } else {
        month
    };
    if valid_civil(year as int, m as int, day as int, hour as int, minute as int) {
        Ok(SpcDateTime { year, month: m, day, hour, minute })
    } else {
        Err(DecodeError::InvalidDateTime { year, month, day, hour, minute })
    }
}

/// Validates and normalizes raw date components into a timestamp.
pub fn compose_datetime(year: u16, month: u8, day: u8, hour: u8, minute: u8) -> (r: Result<
    SpcDateTime,
    DecodeError,
>)
    ensures
        r == spec_compose_datetime(year, month, day, hour, minute),
        r matches Ok(dt) ==> dt.wf(),
{
    let m: u8 = if month == 0 {
        1
    } else {
        month
    };
    let dim: u8 = days_in_month_exec(year, m);
    if 1 <= m && m <= 12 && 1 <= day && day <= dim && hour <= 23 && minute <= 59 {
        Ok(SpcDateTime { year, month: m, day, hour, minute })
    } else {
        Err(DecodeError::InvalidDateTime { year, month, day, hour, minute })
    }
}

/// Executable twin of [`days_in_month`].
pub fn days_in_month_exec(y: u16, m: u8) -> (r: u8)
    ensures
        r == days_in_month(y as int, m as int),
{
    if m == 1 || m == 3 || m == 5 || m == 7 || m == 8 || m == 10 || m == 12 {
        31
    } else if m == 4 || m == 6 || m == 9 || m == 11 {
        30
    } else if m == 2 {
        if y % 4 == 0 && (y % 100 != 0 || y % 400 == 0) {
            29
        } else {
            28
        }
    } else {
        0
    }
}

} // verus!

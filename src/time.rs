//! Reading the system clock as a [`Timestamp`].
use vstd::prelude::*;

use crate::data::{Timestamp, TimestampError};

verus! {

/// A point of the system clock, opaque here.
#[verifier::external_type_specification]
#[verifier::external_body]
pub struct ExSystemTime(std::time::SystemTime);

/// The error of a clock difference that came out negative, opaque here.
#[verifier::external_type_specification]
#[verifier::external_body]
pub struct ExSystemTimeError(std::time::SystemTimeError);

/// Relies on `SystemTime::now`: the current time of the system clock.
#[verifier::external_body]
fn clock_now() -> std::time::SystemTime {
    std::time::SystemTime::now()
}

/// Relies on `SystemTime::duration_since` against `UNIX_EPOCH`: the time
/// elapsed since the epoch, or an error if `t` lies before it.
#[verifier::external_body]
fn since_epoch(t: &std::time::SystemTime) -> Result<std::time::Duration, std::time::SystemTimeError> {
    t.duration_since(std::time::SystemTime::UNIX_EPOCH)
}

/// Relies on `SystemTimeError::duration`: how far the later time lay before
/// the earlier one.
#[verifier::external_body]
fn shortfall(e: &std::time::SystemTimeError) -> std::time::Duration {
    e.duration()
}

/// Relies on `Duration::as_millis`: the whole milliseconds of a duration.
#[verifier::external_body]
fn whole_millis(d: &std::time::Duration) -> u128 {
    d.as_millis()
}

/// The signed millisecond count of an offset from the epoch.
pub open spec fn signed_offset(before_epoch: bool, millis: u128) -> int {
    if before_epoch {
        -(millis as int)
    } else {
        millis as int
    }
}

/// Whether an offset from the epoch fits a [`Timestamp`].
pub open spec fn offset_fits(before_epoch: bool, millis: u128) -> bool {
    i64::MIN <= signed_offset(before_epoch, millis) <= i64::MAX
}

impl Timestamp {
    /// The timestamp `millis` milliseconds before or after the epoch, or the
    /// integer conversion error if it does not fit in an `i64`.
    pub fn from_epoch_offset(before_epoch: bool, millis: u128) -> (r: Result<
        Timestamp,
        TimestampError,
    >)
        ensures
            r is Ok <==> offset_fits(before_epoch, millis),
            r is Ok ==> r->Ok_0.0 == signed_offset(before_epoch, millis),
            r is Err ==> r->Err_0 is TryFromIntError,
    {
        if before_epoch {
            if millis > i128::MAX as u128 {
                return match i64::try_from(millis) {
                    Ok(v) => Ok(Timestamp(v)),
                    Err(e) => Err(TimestampError::TryFromIntError(e)),
                };
            }
            let negated: i128 = -(millis as i128);
            match i64::try_from(negated) {
                Ok(v) => Ok(Timestamp(v)),
                Err(e) => Err(TimestampError::TryFromIntError(e)),
            }
        } else {
            match i64::try_from(millis) {
                Ok(v) => Ok(Timestamp(v)),
                Err(e) => Err(TimestampError::TryFromIntError(e)),
            }
        }
    }

    /// The current time of the system clock. A clock beyond the range of a
    /// timestamp, some 292 million years from the epoch, reads as the
    /// latest timestamp.
    pub fn now() -> Timestamp {
        match Timestamp::try_from(clock_now()) {
            Ok(t) => t,
            Err(_) => Timestamp(i64::MAX),
        }
    }
}

impl TryFrom<std::time::SystemTime> for Timestamp {
    type Error = TimestampError;

    fn try_from(value: std::time::SystemTime) -> Result<Timestamp, TimestampError> {
        match since_epoch(&value) {
            Ok(d) => Timestamp::from_epoch_offset(false, whole_millis(&d)),
            Err(e) => Timestamp::from_epoch_offset(true, whole_millis(&shortfall(&e))),
        }
    }
}

impl vstd::std_specs::convert::TryFromSpecImpl<std::time::SystemTime> for Timestamp {
    /// A point of the system clock is opaque here, so the conversion is
    /// described by [`Timestamp::from_epoch_offset`] alone.
    open spec fn obeys_try_from_spec() -> bool {
        false
    }

    open spec fn try_from_spec(v: std::time::SystemTime) -> Result<Timestamp, TimestampError> {
        arbitrary()
    }
}

} // verus!

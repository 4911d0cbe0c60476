//! Small helpers: bit-mask queries and conversion of file times to Unix
//! timestamps.

use vstd::prelude::*;

verus! {

#[verifier::external_type_specification]
#[verifier::external_body]
pub struct ExSystemTime(std::time::SystemTime);

#[verifier::external_type_specification]
#[verifier::external_body]
pub struct ExIoError(std::io::Error);

/// Bit-mask queries on integer permission and attribute words.
pub trait HasMaskSetExt: Sized {
    /// True when every bit of `mask` is set in `self`.
    fn has_mask_set(&self, mask: Self) -> bool;

    /// True when at least one bit of `mask` is set in `self`.
    fn has_bit_in_mask_set(&self, mask: Self) -> bool;
}

impl HasMaskSetExt for u32 {
    fn has_mask_set(&self, mask: u32) -> (r: bool)
        ensures
            r == (*self & mask == mask),
    {
        (*self & mask) == mask
    }

    fn has_bit_in_mask_set(&self, mask: u32) -> (r: bool)
        ensures
            r == (*self & mask != 0),
    {
        (*self & mask) != 0
    }
}

/// What `SystemTime::duration_since(SystemTime::UNIX_EPOCH)` gives for a
/// time, in whole seconds: `Ok` with the seconds after the epoch, or `Err`
/// with the seconds before it. It depends on the time alone.
pub uninterp spec fn epoch_offset(time: std::time::SystemTime) -> Result<u64, u64>;

/// `SystemTime::duration_since(SystemTime::UNIX_EPOCH)`, in whole seconds:
/// `Ok` with the seconds after the epoch, or `Err` with the seconds before
/// it when the time lies before the epoch. Its result is named.
#[verifier::external_body]
fn seconds_from_epoch(time: &std::time::SystemTime) -> (r: Result<u64, u64>)
    ensures
        r == epoch_offset(*time),
{
    match time.duration_since(std::time::SystemTime::UNIX_EPOCH) {
        Ok(duration) => Ok(duration.as_secs()),
        Err(err) => Err(err.duration().as_secs()),
    }
}

/// `SystemTime::now()`: the current time of the system clock.
#[verifier::external_body]
pub(crate) fn system_time_now() -> (r: std::time::SystemTime) {
    std::time::SystemTime::now()
}

/// The Unix timestamp of a time `seconds` after (`Ok`) or before (`Err`)
/// the epoch, the count converted to `i64` as a cast does and negated with
/// wrap-around for times before the epoch.
pub open spec fn timestamp_from_offset(offset: Result<u64, u64>) -> i64 {
    match offset {
        Ok(seconds) => seconds as i64,
        Err(seconds) => 0i64.wrapping_sub(seconds as i64),
    }
}

/// The Unix timestamp of a time given by its distance from the epoch.
pub fn unix_timestamp_from_offset(offset: Result<u64, u64>) -> (r: i64)
    ensures
        r == timestamp_from_offset(offset),
{
    match offset {
        Ok(seconds) => seconds as i64,
        Err(seconds) => 0i64.wrapping_sub(seconds as i64),
    }
}

/// The Unix timestamp of a file time, or `None` when the time could not be
/// read.
pub fn systemtime_to_unix_timestamp(systemtime: Result<std::time::SystemTime, std::io::Error>) -> (r: Option<i64>)
    ensures
        systemtime is Err ==> r is None,
        systemtime matches Ok(time) ==> r == Some(timestamp_from_offset(epoch_offset(time))),
{
    match systemtime {
        Ok(sys_time) => Some(unix_timestamp_from_offset(seconds_from_epoch(&sys_time))),
        Err(_) => None,
    }
}

} // verus!

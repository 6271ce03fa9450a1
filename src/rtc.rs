//! The real-time clock's count of seconds.
use vstd::prelude::*;

verus! {

/// The clock is set to this time (2010-01-01) when nothing better is known;
/// a reading below it has wrapped past 2^32.
pub const RTC_UNSET_EPOCH: u32 = 1262304000;

/// The real-time clock. Reading and setting it are the host's.
pub struct RTC {}

impl RTC {
    /// Seconds since 1970 from a 32-bit clock reading: readings below the
    /// unset epoch are taken to have wrapped once.
    pub fn seconds_from_reading(seconds: u32) -> (r: u64)
        ensures
            seconds < RTC_UNSET_EPOCH ==> r == 0x100000000 + seconds,
            seconds >= RTC_UNSET_EPOCH ==> r == seconds,
    {
        if seconds < RTC_UNSET_EPOCH {
            0x100000000u64 + seconds as u64
        } else {
            seconds as u64
        }
    }

    /// The 32-bit value the clock is set to for `seconds`: its low 32 bits.
    pub fn reading_from_seconds(seconds: u64) -> (r: u32)
        ensures
            r == seconds % 0x100000000,
    {
        (seconds % 0x100000000) as u32
    }
}

} // verus!

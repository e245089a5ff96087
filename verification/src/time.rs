//! Time as IEEE 2030.5 counts it, and the offset between the server's clock
//! and this device's.

use std::time::{SystemTime, UNIX_EPOCH};
use vstd::prelude::*;

verus! {

/// A point in time: whole seconds from the Unix epoch, negative before it.
///
/// The field is wide enough for every reading of the system clock and for
/// every offset added to one.
#[derive(Clone, Copy, Debug, PartialEq, Eq, Structural)]
pub struct SEPTime {
    pub secs: i128,
}

/// What the system clock shows: the whole seconds between the epoch and now,
/// and on which side of the epoch now lies.
#[derive(Clone, Copy, Debug, PartialEq, Eq, Structural)]
pub enum ClockReading {
    AfterEpoch(u64),
    BeforeEpoch(u64),
}

/// Reads the system clock: `std::time::SystemTime::now`, as the whole seconds
/// (`Duration::as_secs`) that `duration_since(UNIX_EPOCH)` reports, on either
/// side of the epoch. The reading depends on the moment of the call, so
/// nothing is claimed of it.
#[verifier::external_body]
fn read_clock() -> (reading: ClockReading) {
    match SystemTime::now().duration_since(UNIX_EPOCH) {
        Ok(since) => ClockReading::AfterEpoch(since.as_secs()),
        Err(before) => ClockReading::BeforeEpoch(before.duration().as_secs()),
    }
}

/// The time that a reading of the clock stands for.
pub open spec fn time_of(reading: ClockReading) -> SEPTime {
    match reading {
        ClockReading::AfterEpoch(secs) => SEPTime { secs: secs as i128 },
        ClockReading::BeforeEpoch(secs) => SEPTime { secs: (-(secs as int)) as i128 },
    }
}

/// The offset that brings this device's clock to the server's time, where an
/// `i64` can hold both the device's time and the offset: the server's time
/// less the device's.
pub open spec fn offset_of(server_time: i64, now: SEPTime) -> Option<i64> {
    if 0 <= now.secs <= i64::MAX && i64::MIN <= server_time - now.secs <= i64::MAX {
        Some((server_time - now.secs) as i64)
    } else {
        None
    }
}

impl SEPTime {
    /// The time that a reading of the clock stands for.
    pub fn from_reading(reading: ClockReading) -> (time: SEPTime)
        ensures
            time == time_of(reading),
    {
        match reading {
            ClockReading::AfterEpoch(secs) => SEPTime { secs: secs as i128 },
            ClockReading::BeforeEpoch(secs) => SEPTime { secs: -(secs as i128) },
        }
    }

    /// The seconds since the epoch, for a time that is not before it.
    pub fn unix_secs(&self) -> (secs: Option<u64>)
        ensures
            secs == (if 0 <= self.secs <= u64::MAX {
                Some(self.secs as u64)
            } else {
                None
            }),
    {
        if 0 <= self.secs && self.secs <= u64::MAX as i128 {
            Some(self.secs as u64)
        } else {
            None
        }
    }

    /// The seconds from the epoch as the protocol's signed 64-bit time, where
    /// they fit.
    pub fn to_i64(&self) -> (secs: Option<i64>)
        ensures
            secs == (if i64::MIN <= self.secs <= i64::MAX {
                Some(self.secs as i64)
            } else {
                None
            }),
    {
        if i64::MIN as i128 <= self.secs && self.secs <= i64::MAX as i128 {
            Some(self.secs as i64)
        } else {
            None
        }
    }
}

impl core::ops::Add<i64> for SEPTime {
    type Output = SEPTime;

    /// The time `rhs` seconds later, or earlier for a negative `rhs`.
    fn add(self, rhs: i64) -> (sum: SEPTime) {
        SEPTime { secs: self.secs + rhs as i128 }
    }
}

impl vstd::std_specs::ops::AddSpecImpl<i64> for SEPTime {
    open spec fn obeys_add_spec() -> bool {
        true
    }

    open spec fn add_req(self, rhs: i64) -> bool {
        i128::MIN <= self.secs + rhs <= i128::MAX
    }

    open spec fn add_spec(self, rhs: i64) -> SEPTime {
        SEPTime { secs: (self.secs + rhs) as i128 }
    }
}

/// Returns the current time of the system clock.
pub fn current_time() -> (now: SEPTime)
    ensures
        -u64::MAX <= now.secs <= u64::MAX,
{
    SEPTime::from_reading(read_clock())
}

/// Returns the current time of the system clock, moved by the given offset in
/// seconds.
pub fn current_time_with_offset(offset: i64) -> (now: SEPTime)
    ensures
        -u64::MAX + offset <= now.secs <= u64::MAX + offset,
{
    current_time() + offset
}

/// Given the server's time, calculates its offset from the time `now` of this
/// device's clock: the offset to hand to [`current_time_with_offset`] from
/// then on. `None` where `now` is before the epoch or no `i64` holds the
/// offset.
pub fn time_offset(server_time: i64, now: SEPTime) -> (offset: Option<i64>)
    ensures
        offset == offset_of(server_time, now),
{
    match now.to_i64() {
        Some(secs) => {
            if secs < 0 {
                None
            } else {
                server_time.checked_sub(secs)
            }
        },
        None => None,
    }
}

/// Given the server's time, calculates its offset from the system clock as it
/// stands now.
pub fn update_time_offset(server_time: i64) -> (offset: Option<i64>)
    ensures
        offset matches Some(secs) ==> server_time - i64::MAX <= secs <= server_time,
{
    time_offset(server_time, current_time())
}

} // verus!

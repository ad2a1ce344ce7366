//! Points in time on the two clocks the instruments run on, with arithmetic
//! that stops at the ends of the representable range instead of overflowing.

use vstd::prelude::*;

verus! {

/// The integer `x` brought into the range of `i64`.
pub open spec fn clamp_i64(x: int) -> int {
    if x < i64::MIN as int {
        i64::MIN as int
    } else if x > i64::MAX as int {
        i64::MAX as int
    } else {
        x
    }
}

/// The integer `x` brought into the range of `u64`.
pub open spec fn clamp_u64(x: int) -> int {
    if x < 0 {
        0
    } else if x > u64::MAX as int {
        u64::MAX as int
    } else {
        x
    }
}

/// A span of `millis` milliseconds in whole seconds, halves rounded away from
/// zero.
pub open spec fn rounded_seconds(millis: int) -> int {
    if millis >= 0 {
        (millis + 500) / 1000
    } else {
        -((500 - millis) / 1000)
    }
}

/// A span of `millis` milliseconds in whole seconds, the fraction dropped.
pub open spec fn whole_seconds(millis: int) -> int {
    if millis >= 0 {
        millis / 1000
    } else {
        -((-millis) / 1000)
    }
}

fn clamp_to_i64(x: i128) -> (r: i64)
    ensures
        r as int == clamp_i64(x as int),
{
    if x < i64::MIN as i128 {
        i64::MIN
    } else if x > i64::MAX as i128 {
        i64::MAX
    } else {
        x as i64
    }
}

/// Rounds a span in milliseconds to whole seconds, halves away from zero.
pub fn round_to_seconds(millis: i64) -> (seconds: i64)
    ensures
        seconds as int == rounded_seconds(millis as int),
{
    if millis >= 0 {
        ((millis as i128 + 500) / 1000) as i64
    } else {
        let magnitude: i128 = (500 - millis as i128) / 1000;
        (-magnitude) as i64
    }
}

/// Cuts a span in milliseconds down to whole seconds.
pub fn truncate_to_seconds(millis: i64) -> (seconds: i64)
    ensures
        seconds as int == whole_seconds(millis as int),
{
    if millis >= 0 {
        millis / 1000
    } else {
        let magnitude: i128 = (-(millis as i128)) / 1000;
        (-magnitude) as i64
    }
}

/// A point on the wall clock, in milliseconds since the Unix epoch.
#[derive(Clone, Copy, PartialEq, Eq, Debug, Structural)]
pub struct Instant {
    pub millis: i64,
}

impl Instant {
    /// The instant `millis` milliseconds after this one.
    pub open spec fn plus_millis(self, millis: int) -> Instant {
        Instant { millis: clamp_i64(self.millis as int + millis) as i64 }
    }

    /// The instant `seconds` seconds after this one.
    pub open spec fn plus_seconds(self, seconds: int) -> Instant {
        self.plus_millis(seconds * 1000)
    }

    /// The milliseconds that have passed at this instant since `earlier`.
    pub open spec fn since(self, earlier: Instant) -> int {
        clamp_i64(self.millis as int - earlier.millis as int)
    }

    pub fn from_millis(millis: i64) -> (instant: Instant)
        ensures
            instant.millis == millis,
    {
        Instant { millis }
    }

    /// Moves the instant forward by `millis` milliseconds (backward if
    /// negative).
    pub fn add_millis(self, millis: i64) -> (later: Instant)
        ensures
            later == self.plus_millis(millis as int),
    {
        Instant { millis: clamp_to_i64(self.millis as i128 + millis as i128) }
    }

    /// Moves the instant back by `millis` milliseconds.
    pub fn sub_millis(self, millis: i64) -> (earlier: Instant)
        ensures
            earlier == self.plus_millis(-(millis as int)),
    {
        Instant { millis: clamp_to_i64(self.millis as i128 - millis as i128) }
    }

    /// Moves the instant forward by `seconds` seconds.
    pub fn add_seconds(self, seconds: i64) -> (later: Instant)
        ensures
            later == self.plus_seconds(seconds as int),
    {
        Instant { millis: clamp_to_i64(self.millis as i128 + seconds as i128 * 1000) }
    }

    /// The milliseconds from `earlier` to this instant.
    pub fn millis_since(self, earlier: Instant) -> (millis: i64)
        ensures
            millis as int == self.since(earlier),
    {
        clamp_to_i64(self.millis as i128 - earlier.millis as i128)
    }
}

/// A point on the audio backend's own clock, in microseconds since that
/// clock started.
#[derive(Clone, Copy, PartialEq, Eq, Debug, Structural)]
pub struct AudioTime {
    pub micros: u64,
}

impl AudioTime {
    /// The audio time `micros` microseconds after this one.
    pub open spec fn plus_micros(self, micros: int) -> AudioTime {
        AudioTime { micros: clamp_u64(self.micros as int + micros) as u64 }
    }

    pub fn from_micros(micros: u64) -> (time: AudioTime)
        ensures
            time.micros == micros,
    {
        AudioTime { micros }
    }

    /// Moves the audio time forward by `micros` microseconds.
    pub fn add_micros(self, micros: u64) -> (later: AudioTime)
        ensures
            later == self.plus_micros(micros as int),
    {
        let wide: u128 = self.micros as u128 + micros as u128;
        if wide > u64::MAX as u128 {
            AudioTime { micros: u64::MAX }
        } else {
            AudioTime { micros: wide as u64 }
        }
    }
}

} // verus!

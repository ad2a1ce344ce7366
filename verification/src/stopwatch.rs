//! A stopwatch: elapsed time that runs while an anchor on the wall clock is
//! set, and stands still while there is none.

use vstd::prelude::*;
use crate::clock::Instant;

verus! {

/// Elapsed milliseconds, and the instant from which they are counted while
/// the stopwatch runs.
#[derive(Clone, Copy, Debug)]
pub struct Stopwatch {
    pub time: i64,
    pub start_time: Option<Instant>,
}

impl Stopwatch {
    pub open spec fn running(self) -> bool {
        self.start_time is Some
    }

    /// The stopwatch after start/pause was pressed at `now`. A running one
    /// stops and keeps what had elapsed by then; a standing one runs on from
    /// its time.
    pub open spec fn start_paused(self, now: Instant) -> Stopwatch {
        match self.start_time {
            Some(anchor) => Stopwatch { time: now.since(anchor) as i64, start_time: None },
            None => Stopwatch {
                time: self.time,
                start_time: Some(now.plus_millis(-(self.time as int))),
            },
        }
    }

    /// The stopwatch set back to zero at `now`. A running one keeps running.
    pub open spec fn reset_at(self, now: Instant) -> Stopwatch {
        Stopwatch {
            time: 0,
            start_time: if self.running() {
                Some(now)
            } else {
                None
            },
        }
    }

    /// The stopwatch after its face was pressed at `now`: one that stands
    /// with time on it is set back to zero, any other starts or pauses.
    pub open spec fn toggled(self, now: Instant) -> Stopwatch {
        if !self.running() && self.time > 0 {
            self.reset_at(now)
        } else {
            self.start_paused(now)
        }
    }

    /// The stopwatch as it shows at `now`.
    pub open spec fn updated(self, now: Instant) -> Stopwatch {
        match self.start_time {
            Some(anchor) => Stopwatch { time: now.since(anchor) as i64, start_time: self.start_time },
            None => self,
        }
    }

    /// A stopwatch that stands at zero.
    pub fn new() -> (stopwatch: Stopwatch)
        ensures
            stopwatch == (Stopwatch { time: 0, start_time: None }),
    {
        Stopwatch { time: 0, start_time: None }
    }

    pub fn is_active(&self) -> (active: bool)
        ensures
            active == self.running(),
    {
        self.start_time.is_some()
    }

    pub fn toggle(&mut self, now: Instant)
        ensures
            *final(self) == old(self).toggled(now),
    {
        if !self.is_active() && self.time > 0 {
            self.reset(now);
        } else {
            self.start_pause(now);
        }
    }

    pub fn start_pause(&mut self, now: Instant)
        ensures
            *final(self) == old(self).start_paused(now),
    {
        match self.start_time {
            Some(anchor) => {
                self.time = now.millis_since(anchor);
                self.start_time = None;
            },
            None => {
                self.start_time = Some(now.sub_millis(self.time));
            },
        }
    }

    pub fn reset(&mut self, now: Instant)
        ensures
            *final(self) == old(self).reset_at(now),
    {
        self.time = 0;
        if self.start_time.is_some() {
            self.start_time = Some(now);
        }
    }

    pub fn update(&mut self, now: Instant)
        ensures
            *final(self) == old(self).updated(now),
    {
        if let Some(anchor) = self.start_time {
            self.time = now.millis_since(anchor);
        }
    }
}

/// The span within which times on the wall clock and elapsed times add up
/// without reaching the ends of the representable range.
pub open spec fn within_reach(millis: int) -> bool {
    -0x1000_0000_0000_0000 <= millis <= 0x1000_0000_0000_0000
}

/// Pressing the face of a fresh stopwatch starts it.
pub proof fn lemma_toggle_fresh_starts(now: Instant)
    ensures
        (Stopwatch { time: 0, start_time: None }).toggled(now).running(),
        (Stopwatch { time: 0, start_time: None }).toggled(now).time == 0,
{
}

/// Pressing the face of a stopwatch that stands with time on it sets it back
/// to zero; pressing it once more starts it from there.
pub proof fn lemma_toggle_paused_rearms(stopwatch: Stopwatch, first: Instant, second: Instant)
    requires
        !stopwatch.running(),
        stopwatch.time > 0,
    ensures
        stopwatch.toggled(first) == (Stopwatch { time: 0, start_time: None }),
        stopwatch.toggled(first).toggled(second).running(),
        stopwatch.toggled(first).toggled(second).updated(second).time == 0,
{
}

/// Pressing the face of a running stopwatch pauses it.
pub proof fn lemma_toggle_running_pauses(stopwatch: Stopwatch, now: Instant)
    requires
        stopwatch.running(),
    ensures
        !stopwatch.toggled(now).running(),
        stopwatch.toggled(now).time == now.since(stopwatch.start_time->0),
{
}

/// Start and pause in a row leave the time where it was, plus what passed on
/// the wall clock between the two.
pub proof fn lemma_start_pause_pair(stopwatch: Stopwatch, first: Instant, second: Instant)
    requires
        !stopwatch.running(),
        within_reach(stopwatch.time as int),
        within_reach(first.millis as int),
        within_reach(second.millis as int),
    ensures
        !stopwatch.start_paused(first).start_paused(second).running(),
        stopwatch.start_paused(first).start_paused(second).time == stopwatch.time + (
        second.millis - first.millis),
        first == second ==> stopwatch.start_paused(first).start_paused(second) == stopwatch,
{
}

/// Pause and start in a row leave a running stopwatch showing the time it
/// showed when it was paused.
pub proof fn lemma_pause_start_pair(stopwatch: Stopwatch, first: Instant, second: Instant)
    requires
        stopwatch.running(),
        within_reach(stopwatch.start_time->0.millis as int),
        within_reach(first.millis as int),
        within_reach(second.millis as int),
    ensures
        stopwatch.start_paused(first).start_paused(second).running(),
        stopwatch.start_paused(first).start_paused(second).updated(second).time
            == stopwatch.updated(first).time,
{
}

} // verus!

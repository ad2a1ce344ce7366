//! A countdown timer: a duration that can be edited, a deadline on the wall
//! clock while it runs, and short tones as it nears zero.

use vstd::prelude::*;
use vstd::string::*;
use crate::clock::{rounded_seconds, round_to_seconds, truncate_to_seconds, whole_seconds, AudioTime, Instant};
use crate::metronome::Beep;
use crate::text::{i64_of_text, int_text, parse_i64, render_i64};

verus! {

/// The pitch of the countdown tones, in hertz.
pub const COUNTDOWN_PITCH: u32 = 2000;

/// The length of the tone at zero, in microseconds.
pub const FINAL_TONE_LENGTH: u64 = 500_000;

/// The length of the tones before zero, in microseconds.
pub const COUNTDOWN_TONE_LENGTH: u64 = 150_000;

/// How far ahead of the audio clock the first countdown tone is scheduled,
/// in microseconds.
pub const FIRST_TONE_DELAY: u64 = 10_000;

/// The distance between two countdown tones, in microseconds.
pub const TONE_SPACING: u64 = 1_000_000;

/// The number of seconds left at which the first tone sounds.
pub const FIRST_TONE_AT: i64 = 3;

/// What is kept of a timer so that it can be taken up again later.
#[derive(Clone, Copy, Debug)]
pub enum TimerState {
    Unset,
    Active { target_time: Instant },
    Paused { time: i64 },
}

/// A countdown timer.
pub struct Timer {
    /// The duration as text: what was typed, or what is shown.
    pub input: String,
    /// The duration in seconds, or the seconds left as last shown; none
    /// where the text cannot be read.
    pub time: Option<i64>,
    /// The duration the timer goes back to when it is reset.
    pub reset_time: i64,
    /// The deadline, while the timer runs.
    pub target_time: Option<Instant>,
    /// The audio time of the countdown tone scheduled last.
    pub beep_time: AudioTime,
    pub beep_volume: u8,
}

/// What a `Timer` holds, with its text as a sequence of characters.
pub struct TimerView {
    pub input: Seq<char>,
    pub time: Option<i64>,
    pub reset_time: i64,
    pub target_time: Option<Instant>,
    pub beep_time: AudioTime,
    pub beep_volume: u8,
}

impl View for Timer {
    type V = TimerView;

    open spec fn view(&self) -> TimerView {
        TimerView {
            input: self.input@,
            time: self.time,
            reset_time: self.reset_time,
            target_time: self.target_time,
            beep_time: self.beep_time,
            beep_volume: self.beep_volume,
        }
    }
}

impl TimerView {
    /// A timer that was never set.
    pub open spec fn fresh(beep_volume: u8) -> TimerView {
        TimerView {
            input: Seq::empty(),
            time: None,
            reset_time: 0,
            target_time: None,
            beep_time: AudioTime { micros: 0 },
            beep_volume,
        }
    }

    pub open spec fn is_set(self) -> bool {
        self.reset_time > 0
    }

    pub open spec fn is_active(self) -> bool {
        self.target_time is Some
    }

    /// The timer after its duration was set to `seconds` at `now`. One that
    /// runs keeps running, towards the new deadline.
    pub open spec fn set_to(self, seconds: i64, now: Instant) -> TimerView {
        TimerView {
            input: int_text(seconds as int),
            time: Some(seconds),
            reset_time: seconds,
            target_time: if self.is_active() {
                Some(now.plus_seconds(seconds as int))
            } else {
                None
            },
            ..self
        }
    }

    /// The timer after it was started at `now` with the seconds it shows.
    pub open spec fn started(self, now: Instant) -> TimerView {
        TimerView { target_time: Some(now.plus_seconds(self.time->0 as int)), ..self }
    }

    /// The timer after it was paused: it keeps showing what it showed.
    pub open spec fn paused(self) -> TimerView {
        TimerView { target_time: None, ..self }
    }

    pub open spec fn start_paused(self, now: Instant) -> TimerView {
        if self.is_active() {
            self.paused()
        } else {
            self.started(now)
        }
    }

    /// The timer set back to the duration it was last set to.
    pub open spec fn reset_at(self, now: Instant) -> TimerView {
        self.set_to(self.reset_time, now)
    }

    /// The timer without a duration, as for a section that is not timed.
    pub open spec fn cleared(self) -> TimerView {
        TimerView { reset_time: 0, target_time: None, beep_time: AudioTime { micros: 0 }, ..self }
    }

    /// The timer after `raw` was typed in as its duration. A text that
    /// cannot be read is kept, and the timer then shows no seconds.
    pub open spec fn typed(self, raw: Seq<char>) -> TimerView {
        match i64_of_text(raw) {
            Some(seconds) => TimerView {
                input: raw,
                time: Some(seconds),
                reset_time: seconds,
                ..self
            },
            None => TimerView { input: raw, time: None, ..self },
        }
    }

    /// The whole seconds left at `now`: counted from the deadline while the
    /// timer runs, else the seconds it shows.
    pub open spec fn remaining(self, now: Instant) -> Option<i64> {
        match self.target_time {
            Some(target) => Some(rounded_seconds(target.since(now)) as i64),
            None => self.time,
        }
    }

    /// Whether polling at `now` announces a second: the timer runs, there
    /// is an audio clock, and the seconds left are within the countdown and
    /// not the ones it shows already.
    pub open spec fn announces(self, now: Instant, audio: Option<AudioTime>) -> bool {
        &&& self.is_active()
        &&& audio is Some
        &&& 0 <= self.remaining(now)->0 <= FIRST_TONE_AT
        &&& self.remaining(now) != self.time
    }

    /// The audio time of the tone that polling at `now` schedules: just
    /// ahead of the audio clock for the first of a countdown, and one
    /// spacing after the tone before it for the others.
    pub open spec fn tone_time(self, now: Instant, audio: AudioTime) -> AudioTime {
        if self.remaining(now) == Some(FIRST_TONE_AT) {
            audio.plus_micros(FIRST_TONE_DELAY as int)
        } else {
            self.beep_time.plus_micros(TONE_SPACING as int)
        }
    }

    /// The tone that polling at `now` schedules, if it announces a second.
    pub open spec fn tone(self, now: Instant, audio: Option<AudioTime>) -> Option<Beep> {
        if self.announces(now, audio) {
            Some(
                Beep {
                    frequency: COUNTDOWN_PITCH,
                    start: self.tone_time(now, audio->0),
                    length: if self.remaining(now) == Some(0i64) {
                        FINAL_TONE_LENGTH
                    } else {
                        COUNTDOWN_TONE_LENGTH
                    },
                    volume: self.beep_volume,
                },
            )
        } else {
            None
        }
    }

    /// The timer after it was polled at `now`: one that runs shows the
    /// seconds left.
    pub open spec fn updated(self, now: Instant, audio: Option<AudioTime>) -> TimerView {
        if self.is_active() {
            TimerView {
                input: int_text(self.remaining(now)->0 as int),
                time: self.remaining(now),
                beep_time: if self.announces(now, audio) {
                    self.tone_time(now, audio->0)
                } else {
                    self.beep_time
                },
                ..self
            }
        } else {
            self
        }
    }

    /// What is kept of the timer: the deadline of one that runs, the
    /// seconds shown by one that is set and stands, nothing else.
    pub open spec fn state(self) -> TimerState {
        if self.is_active() {
            TimerState::Active { target_time: self.target_time->0 }
        } else if self.is_set() {
            TimerState::Paused {
                time: match self.time {
                    Some(seconds) => seconds,
                    None => 0,
                },
            }
        } else {
            TimerState::Unset
        }
    }

    /// The timer taken up again at `now` from what was kept of it. One that
    /// ran runs on with the whole seconds that are left to its deadline.
    pub open spec fn restored(self, state: TimerState, now: Instant) -> TimerView {
        match state {
            TimerState::Unset => self.cleared(),
            TimerState::Active { target_time } => self.set_to(
                whole_seconds(target_time.since(now)) as i64,
                now,
            ).started(now),
            TimerState::Paused { time } => self.set_to(time, now).paused(),
        }
    }
}

impl Timer {
    pub fn new(beep_volume: u8) -> (timer: Timer)
        ensures
            timer@ == TimerView::fresh(beep_volume),
    {
        Timer {
            input: String::new(),
            time: None,
            reset_time: 0,
            target_time: None,
            beep_time: AudioTime { micros: 0 },
            beep_volume,
        }
    }

    pub fn is_set(&self) -> (set: bool)
        ensures
            set == self@.is_set(),
    {
        self.reset_time > 0
    }

    pub fn is_active(&self) -> (active: bool)
        ensures
            active == self@.is_active(),
    {
        self.target_time.is_some()
    }

    pub fn start(&mut self, now: Instant)
        requires
            old(self).time is Some,
        ensures
            final(self)@ == old(self)@.started(now),
    {
        match self.time {
            Some(seconds) => {
                self.target_time = Some(now.add_seconds(seconds));
            },
            None => {},
        }
    }

    pub fn pause(&mut self)
        ensures
            final(self)@ == old(self)@.paused(),
    {
        self.target_time = None;
    }

    pub fn start_pause(&mut self, now: Instant)
        requires
            old(self)@.is_active() || old(self).time is Some,
        ensures
            final(self)@ == old(self)@.start_paused(now),
    {
        if self.target_time.is_some() {
            self.pause();
        } else {
            self.start(now);
        }
    }

    pub fn set(&mut self, time: i64, now: Instant)
        ensures
            final(self)@ == old(self)@.set_to(time, now),
    {
        self.input = render_i64(time);
        self.time = Some(time);
        self.reset_time = time;
        if self.target_time.is_some() {
            self.target_time = Some(now.add_seconds(time));
        }
    }

    pub fn unset(&mut self)
        ensures
            final(self)@ == old(self)@.cleared(),
    {
        self.reset_time = 0;
        self.target_time = None;
        self.beep_time = AudioTime { micros: 0 };
    }

    pub fn reset(&mut self, now: Instant)
        ensures
            final(self)@ == old(self)@.reset_at(now),
    {
        let time = self.reset_time;
        self.set(time, now);
    }

    /// Takes `raw` as the duration typed in.
    pub fn enter(&mut self, raw: String)
        ensures
            final(self)@ == old(self)@.typed(raw@),
    {
        match parse_i64(raw.as_str()) {
            Some(seconds) => {
                self.time = Some(seconds);
                self.reset_time = seconds;
            },
            None => {
                self.time = None;
            },
        }
        self.input = raw;
    }

    /// The whole seconds left at `now`.
    pub fn remaining(&self, now: Instant) -> (seconds: Option<i64>)
        ensures
            seconds == self@.remaining(now),
    {
        match self.target_time {
            Some(target) => Some(round_to_seconds(target.millis_since(now))),
            None => self.time,
        }
    }

    /// Polls the timer at `now` and returns the tone to schedule, if any.
    pub fn update(&mut self, now: Instant, audio: Option<AudioTime>) -> (beep: Option<Beep>)
        ensures
            final(self)@ == old(self)@.updated(now, audio),
            beep == old(self)@.tone(now, audio),
    {
        let mut beep: Option<Beep> = None;
        if let Some(target) = self.target_time {
            let time = round_to_seconds(target.millis_since(now));
            let shown = match self.time {
                Some(seconds) => seconds == time,
                None => false,
            };
            if 0 <= time && time <= FIRST_TONE_AT && !shown {
                if let Some(audio_now) = audio {
                    if time == FIRST_TONE_AT {
                        self.beep_time = audio_now.add_micros(FIRST_TONE_DELAY);
                    } else {
                        self.beep_time = self.beep_time.add_micros(TONE_SPACING);
                    }
                    beep = Some(
                        Beep {
                            frequency: COUNTDOWN_PITCH,
                            start: self.beep_time,
                            length: if time == 0 {
                                FINAL_TONE_LENGTH
                            } else {
                                COUNTDOWN_TONE_LENGTH
                            },
                            volume: self.beep_volume,
                        },
                    );
                }
            }
            self.input = render_i64(time);
            self.time = Some(time);
        }
        beep
    }

    pub fn to_timer_state(&self) -> (state: TimerState)
        ensures
            state == self@.state(),
    {
        match self.target_time {
            Some(target_time) => TimerState::Active { target_time },
            None => {
                if self.is_set() {
                    TimerState::Paused {
                        time: match self.time {
                            Some(seconds) => seconds,
                            None => 0,
                        },
                    }
                } else {
                    TimerState::Unset
                }
            },
        }
    }

    pub fn restore(&mut self, timer_state: TimerState, now: Instant)
        ensures
            final(self)@ == old(self)@.restored(timer_state, now),
    {
        match timer_state {
            TimerState::Unset => {
                self.unset();
            },
            TimerState::Active { target_time } => {
                self.set(truncate_to_seconds(target_time.millis_since(now)), now);
                self.start(now);
            },
            TimerState::Paused { time } => {
                self.set(time, now);
                self.pause();
            },
        }
    }
}

/// Each second of the countdown is announced once: after a poll the timer
/// shows the seconds left, so another poll at which as many are left
/// schedules no tone.
pub proof fn lemma_no_second_announced_twice(
    timer: TimerView,
    first: Instant,
    first_audio: Option<AudioTime>,
    second: Instant,
    second_audio: Option<AudioTime>,
)
    requires
        timer.is_active(),
        timer.remaining(first) == timer.remaining(second),
    ensures
        timer.updated(first, first_audio).tone(second, second_audio) is None,
        timer.updated(first, first_audio).updated(second, second_audio) == timer.updated(
            first,
            first_audio,
        ),
{
}

/// A poll that finds the seconds left changed to a value within the
/// countdown schedules one tone: the long one at zero, a short one before.
/// The first of a countdown lies just ahead of the audio clock, each other
/// one spacing after the one before it.
pub proof fn lemma_countdown_tones(timer: TimerView, now: Instant, audio: AudioTime)
    requires
        timer.is_active(),
        timer.remaining(now) != timer.time,
        0 <= timer.remaining(now)->0 <= FIRST_TONE_AT,
    ensures
        timer.tone(now, Some(audio)) is Some,
        timer.tone(now, Some(audio))->0.frequency == COUNTDOWN_PITCH,
        timer.tone(now, Some(audio))->0.length == if timer.remaining(now)->0 == 0 {
            FINAL_TONE_LENGTH
        } else {
            COUNTDOWN_TONE_LENGTH
        },
        timer.remaining(now)->0 == FIRST_TONE_AT ==> timer.tone(now, Some(audio))->0.start
            == audio.plus_micros(FIRST_TONE_DELAY as int),
        timer.remaining(now)->0 != FIRST_TONE_AT ==> timer.tone(now, Some(audio))->0.start
            == timer.beep_time.plus_micros(TONE_SPACING as int),
        timer.updated(now, Some(audio)).beep_time == timer.tone(now, Some(audio))->0.start,
        timer.tone(now, None) is None,
{
}

/// A timer taken up again from what was kept of it while it ran shows the
/// seconds that are left to the deadline kept, not its first duration, and
/// runs.
pub proof fn lemma_resume_keeps_deadline(timer: TimerView, deadline: Instant, now: Instant)
    ensures
        timer.restored(TimerState::Active { target_time: deadline }, now).is_active(),
        timer.restored(TimerState::Active { target_time: deadline }, now).time == Some(
            whole_seconds(deadline.since(now)) as i64,
        ),
        timer.restored(TimerState::Active { target_time: deadline }, now).reset_time
            == whole_seconds(deadline.since(now)),
{
}

/// What is kept of a timer and taken up again gives a timer that runs if
/// and only if the first one ran, and that stands at the same seconds if
/// the first one was set and stood.
pub proof fn lemma_state_round_trip(timer: TimerView, other: TimerView, now: Instant)
    requires
        timer.is_set() || timer.is_active() ==> timer.time is Some,
    ensures
        other.restored(timer.state(), now).is_active() == timer.is_active(),
        timer.is_set() && !timer.is_active() ==> other.restored(timer.state(), now).time
            == timer.time,
        !timer.is_set() && !timer.is_active() ==> !other.restored(timer.state(), now).is_set(),
{
}

} // verus!

//! A metronome that schedules its beats on the audio clock a little ahead of
//! time, so that coarse polling cannot make them stumble.

use vstd::prelude::*;
use crate::clock::AudioTime;

verus! {

/// How far ahead of the audio clock beats are scheduled, in microseconds.
pub const LOOKAHEAD: u64 = 500_000;

/// The length of one beat's tone, in microseconds.
pub const BEAT_LENGTH: u64 = 50_000;

/// The pitch of a stressed beat, in hertz.
pub const STRESSED_PITCH: u32 = 1000;

/// The pitch of any other beat, in hertz.
pub const PLAIN_PITCH: u32 = 500;

/// A tone handed to the audio backend: pitch in hertz, start on the audio
/// clock, length in microseconds, and volume in percent.
#[derive(Clone, Copy, Debug)]
pub struct Beep {
    pub frequency: u32,
    pub start: AudioTime,
    pub length: u64,
    pub volume: u8,
}

impl Beep {
    /// The audio time at which the tone ends.
    pub open spec fn end(self) -> AudioTime {
        self.start.plus_micros(self.length as int)
    }

    /// The audio time at which the tone is to be stopped.
    pub fn stop_time(&self) -> (stop: AudioTime)
        ensures
            stop == self.end(),
    {
        self.start.add_micros(self.length)
    }
}

/// Beats every `interval` seconds, every `stressed_beat`-th of them
/// stressed.
#[derive(Clone, Copy, Debug)]
pub struct Metronome {
    pub interval: u32,
    pub stressed_beat: u32,
    pub beat_number: u32,
    pub next_beat_time: AudioTime,
    pub is_active: bool,
    pub beep_volume: u8,
}

impl Metronome {
    /// Both the interval and the stress period are at least one.
    pub open spec fn wf(self) -> bool {
        self.interval >= 1 && self.stressed_beat >= 1
    }

    /// The microseconds from one beat to the next.
    pub open spec fn step(self) -> int {
        self.interval as int * 1_000_000
    }

    /// The metronome after it was started. With an audio clock, counting
    /// begins anew and the first beat lies the lookahead in the future.
    pub open spec fn started(self, audio: Option<AudioTime>) -> Metronome {
        match audio {
            Some(now) => Metronome {
                is_active: true,
                beat_number: 0,
                next_beat_time: now.plus_micros(LOOKAHEAD as int),
                ..self
            },
            None => Metronome { is_active: true, ..self },
        }
    }

    pub open spec fn paused(self) -> Metronome {
        Metronome { is_active: false, ..self }
    }

    pub open spec fn start_paused(self, audio: Option<AudioTime>) -> Metronome {
        if self.is_active {
            self.paused()
        } else {
            self.started(audio)
        }
    }

    /// The tone of the beat that is next.
    pub open spec fn beat(self) -> Beep {
        Beep {
            frequency: if self.beat_number as int % self.stressed_beat as int == 0 {
                STRESSED_PITCH
            } else {
                PLAIN_PITCH
            },
            start: self.next_beat_time,
            length: BEAT_LENGTH,
            volume: self.beep_volume,
        }
    }

    /// The metronome after its next beat was scheduled. The count of beats
    /// starts over after the largest number it can hold.
    pub open spec fn advanced(self) -> Metronome {
        Metronome {
            next_beat_time: self.next_beat_time.plus_micros(self.step()),
            beat_number: if self.beat_number == u32::MAX {
                0
            } else {
                (self.beat_number + 1) as u32
            },
            ..self
        }
    }

    /// The microseconds by which the next beat lies before `horizon`, zero
    /// if it does not.
    pub open spec fn lag(self, horizon: AudioTime) -> nat {
        if self.next_beat_time.micros < horizon.micros {
            (horizon.micros - self.next_beat_time.micros) as nat
        } else {
            0
        }
    }

    /// The beats that are due before `horizon`, in order.
    pub open spec fn beats_until(self, horizon: AudioTime) -> Seq<Beep>
        decreases self.lag(horizon),
    {
        if self.wf() && self.next_beat_time.micros < horizon.micros {
            seq![self.beat()] + self.advanced().beats_until(horizon)
        } else {
            Seq::empty()
        }
    }

    /// The metronome after all beats before `horizon` were scheduled.
    pub open spec fn caught_up(self, horizon: AudioTime) -> Metronome
        decreases self.lag(horizon),
    {
        if self.wf() && self.next_beat_time.micros < horizon.micros {
            self.advanced().caught_up(horizon)
        } else {
            self
        }
    }

    /// The tones to schedule when the metronome is polled: while it is
    /// active and there is an audio clock, every beat that begins before the
    /// clock's time plus the lookahead.
    pub open spec fn due_beats(self, audio: Option<AudioTime>) -> Seq<Beep> {
        match audio {
            Some(now) => if self.is_active {
                self.beats_until(now.plus_micros(LOOKAHEAD as int))
            } else {
                Seq::empty()
            },
            None => Seq::empty(),
        }
    }

    /// The metronome after it was polled.
    pub open spec fn updated(self, audio: Option<AudioTime>) -> Metronome {
        match audio {
            Some(now) => if self.is_active {
                self.caught_up(now.plus_micros(LOOKAHEAD as int))
            } else {
                self
            },
            None => self,
        }
    }

    /// A silent metronome at one beat a second, every beat stressed.
    pub fn new(beep_volume: u8) -> (metronome: Metronome)
        ensures
            metronome.wf(),
            metronome == (Metronome {
                interval: 1,
                stressed_beat: 1,
                beat_number: 0,
                next_beat_time: AudioTime { micros: 0 },
                is_active: false,
                beep_volume,
            }),
    {
        Metronome {
            interval: 1,
            stressed_beat: 1,
            beat_number: 0,
            next_beat_time: AudioTime { micros: 0 },
            is_active: false,
            beep_volume,
        }
    }

    pub fn is_active(&self) -> (active: bool)
        ensures
            active == self.is_active,
    {
        self.is_active
    }

    pub fn start(&mut self, audio: Option<AudioTime>)
        ensures
            *final(self) == old(self).started(audio),
    {
        self.is_active = true;
        if let Some(now) = audio {
            self.beat_number = 0;
            self.next_beat_time = now.add_micros(LOOKAHEAD);
        }
    }

    pub fn pause(&mut self)
        ensures
            *final(self) == old(self).paused(),
    {
        self.is_active = false;
    }

    pub fn start_pause(&mut self, audio: Option<AudioTime>)
        ensures
            *final(self) == old(self).start_paused(audio),
    {
        if self.is_active() {
            self.pause();
        } else {
            self.start(audio);
        }
    }

    /// Schedules every beat that is due and returns their tones in order.
    pub fn update(&mut self, audio: Option<AudioTime>) -> (beeps: Vec<Beep>)
        requires
            old(self).wf(),
        ensures
            final(self).wf(),
            *final(self) == old(self).updated(audio),
            beeps@ == old(self).due_beats(audio),
    {
        let mut beeps: Vec<Beep> = Vec::new();
        if self.is_active {
            if let Some(now) = audio {
                let horizon = now.add_micros(LOOKAHEAD);
                while self.next_beat_time.micros < horizon.micros
                    invariant
                        self.wf(),
                        old(self).caught_up(horizon) == self.caught_up(horizon),
                        old(self).beats_until(horizon) == beeps@ + self.beats_until(horizon),
                    decreases self.lag(horizon),
                {
                    let ghost before = *self;
                    let frequency = if self.beat_number % self.stressed_beat == 0 {
                        STRESSED_PITCH
                    } else {
                        PLAIN_PITCH
                    };
                    beeps.push(
                        Beep {
                            frequency,
                            start: self.next_beat_time,
                            length: BEAT_LENGTH,
                            volume: self.beep_volume,
                        },
                    );
                    self.next_beat_time = self.next_beat_time.add_micros(
                        self.interval as u64 * 1_000_000,
                    );
                    self.beat_number = if self.beat_number == u32::MAX {
                        0
                    } else {
                        self.beat_number + 1
                    };
                    assert(*self == before.advanced());
                    assert(beeps@ + self.beats_until(horizon) =~= old(self).beats_until(horizon));
                }
                assert(beeps@ + self.beats_until(horizon) =~= beeps@);
            }
        }
        beeps
    }
}

/// Catching up changes neither the metronome's settings nor whether it is
/// active.
pub proof fn lemma_caught_up_keeps_settings(metronome: Metronome, horizon: AudioTime)
    ensures
        metronome.caught_up(horizon).wf() == metronome.wf(),
        metronome.caught_up(horizon).is_active == metronome.is_active,
        metronome.caught_up(horizon).interval == metronome.interval,
        metronome.caught_up(horizon).stressed_beat == metronome.stressed_beat,
        metronome.caught_up(horizon).beep_volume == metronome.beep_volume,
    decreases metronome.lag(horizon),
{
    if metronome.wf() && metronome.next_beat_time.micros < horizon.micros {
        lemma_caught_up_keeps_settings(metronome.advanced(), horizon);
    }
}

/// Whether one of `beats` sounds the instant `t` of the audio clock in: its
/// start is at or before `t`, and the one after it, `step` microseconds
/// later, has not begun.
pub open spec fn covers(beats: Seq<Beep>, step: int, t: int) -> bool {
    exists|i: int|
        0 <= i < beats.len() && (#[trigger] beats[i]).start.micros <= t < beats[i].start.micros
            + step
}

/// The beats scheduled up to a horizon follow one another without a gap:
/// every instant from the first of them up to the metronome's new next beat
/// falls to one of them, and that next beat is not before the horizon.
pub proof fn lemma_beats_leave_no_gap(metronome: Metronome, horizon: AudioTime, t: int)
    requires
        metronome.wf(),
        horizon.micros + metronome.step() <= u64::MAX,
    ensures
        metronome.caught_up(horizon).next_beat_time.micros >= horizon.micros,
        metronome.caught_up(horizon).next_beat_time.micros >= metronome.next_beat_time.micros,
        metronome.caught_up(horizon).wf(),
        metronome.caught_up(horizon).step() == metronome.step(),
        metronome.caught_up(horizon).is_active == metronome.is_active,
        metronome.next_beat_time.micros <= t < metronome.caught_up(horizon).next_beat_time.micros
            ==> covers(metronome.beats_until(horizon), metronome.step(), t),
    decreases metronome.lag(horizon),
{
    if metronome.next_beat_time.micros < horizon.micros {
        let next = metronome.advanced();
        lemma_beats_leave_no_gap(next, horizon, t);
        let beats = metronome.beats_until(horizon);
        let rest = next.beats_until(horizon);
        assert(beats == seq![metronome.beat()] + rest);
        if metronome.next_beat_time.micros <= t < metronome.caught_up(horizon).next_beat_time.micros {
            if t < next.next_beat_time.micros {
                assert(beats[0] == metronome.beat());
                assert(beats[0].start.micros <= t < beats[0].start.micros + metronome.step());
            } else {
                let i = choose|i: int|
                    0 <= i < rest.len() && (#[trigger] rest[i]).start.micros <= t
                        < rest[i].start.micros + next.step();
                assert(beats[i + 1] == rest[i]);
                assert(beats[i + 1].start.micros <= t < beats[i + 1].start.micros
                    + metronome.step());
            }
        }
    }
}

/// The metronome after it was polled at each of `times` in turn.
pub open spec fn polled(metronome: Metronome, times: Seq<AudioTime>) -> Metronome
    decreases times.len(),
{
    if times.len() == 0 {
        metronome
    } else {
        polled(metronome, times.drop_last()).updated(Some(times.last()))
    }
}

/// All tones scheduled while the metronome was polled at each of `times` in
/// turn.
pub open spec fn polled_beats(metronome: Metronome, times: Seq<AudioTime>) -> Seq<Beep>
    decreases times.len(),
{
    if times.len() == 0 {
        Seq::empty()
    } else {
        polled_beats(metronome, times.drop_last()) + polled(
            metronome,
            times.drop_last(),
        ).due_beats(Some(times.last()))
    }
}

/// A metronome that is started and then polled again and again never leaves
/// a gap: every instant from its first beat up to the lookahead past any of
/// the polls falls to one of the beats scheduled.
pub proof fn lemma_polling_leaves_no_gap(
    metronome: Metronome,
    start: AudioTime,
    times: Seq<AudioTime>,
    k: int,
    t: int,
)
    requires
        metronome.wf(),
        0 <= k < times.len(),
        forall|i: int|
            0 <= i < times.len() ==> (#[trigger] times[i]).micros + LOOKAHEAD + metronome.step()
                <= u64::MAX,
        start.micros + LOOKAHEAD <= t < times[k].micros + LOOKAHEAD,
    ensures
        covers(polled_beats(metronome.started(Some(start)), times), metronome.step(), t),
{
    let begun = metronome.started(Some(start));
    lemma_polling_reaches(begun, times, k, t);
}

proof fn lemma_polling_reaches(begun: Metronome, times: Seq<AudioTime>, k: int, t: int)
    requires
        begun.wf(),
        begun.is_active,
        0 <= times.len(),
        forall|i: int|
            0 <= i < times.len() ==> (#[trigger] times[i]).micros + LOOKAHEAD + begun.step()
                <= u64::MAX,
    ensures
        polled(begun, times).wf(),
        polled(begun, times).is_active,
        polled(begun, times).step() == begun.step(),
        polled(begun, times).next_beat_time.micros >= begun.next_beat_time.micros,
        0 <= k < times.len() ==> polled(begun, times).next_beat_time.micros >= times[k].micros
            + LOOKAHEAD,
        begun.next_beat_time.micros <= t < polled(begun, times).next_beat_time.micros ==> covers(
            polled_beats(begun, times),
            begun.step(),
            t,
        ),
    decreases times.len(),
{
    if times.len() > 0 {
        let earlier = times.drop_last();
        let last = times.last();
        lemma_polling_reaches(begun, earlier, k, t);
        let before = polled(begun, earlier);
        let horizon = last.plus_micros(LOOKAHEAD as int);
        lemma_beats_leave_no_gap(before, horizon, t);
        let old_beats = polled_beats(begun, earlier);
        let new_beats = before.due_beats(Some(last));
        let all = polled_beats(begun, times);
        assert(all == old_beats + new_beats);
        if begun.next_beat_time.micros <= t < polled(begun, times).next_beat_time.micros {
            if t < before.next_beat_time.micros {
                let i = choose|i: int|
                    0 <= i < old_beats.len() && (#[trigger] old_beats[i]).start.micros <= t
                        < old_beats[i].start.micros + begun.step();
                assert(all[i] == old_beats[i]);
                assert(all[i].start.micros <= t < all[i].start.micros + begun.step());
            } else {
                let i = choose|i: int|
                    0 <= i < new_beats.len() && (#[trigger] new_beats[i]).start.micros <= t
                        < new_beats[i].start.micros + before.step();
                assert(all[old_beats.len() + i] == new_beats[i]);
                assert(all[old_beats.len() + i].start.micros <= t < all[old_beats.len()
                    + i].start.micros + begun.step());
            }
        }
        if 0 <= k < times.len() && k < earlier.len() {
            assert(earlier[k] == times[k]);
        }
    }
}

} // verus!

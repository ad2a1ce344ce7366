//! The guide through a training session: which section it is at, since
//! when, and the timer that counts that section down.

use vstd::prelude::*;
use crate::clock::{truncate_to_seconds, whole_seconds, Instant};
use crate::form::{row_views, FormSection, SectionView};
use crate::session::OngoingTrainingSession;
use crate::timer::{Timer, TimerView};

verus! {

/// The state of a guided session.
pub struct Guide {
    pub section_idx: usize,
    pub section_start_time: Instant,
    pub timer: Timer,
    /// Whether the task that polls the guide every second exists.
    pub stream: bool,
}

/// What a `Guide` holds.
#[verifier::ext_equal]
pub struct GuideView {
    pub section_idx: usize,
    pub section_start_time: Instant,
    pub timer: TimerView,
    pub stream: bool,
}

impl View for Guide {
    type V = GuideView;

    open spec fn view(&self) -> GuideView {
        GuideView {
            section_idx: self.section_idx,
            section_start_time: self.section_start_time,
            timer: self.timer@,
            stream: self.stream,
        }
    }
}

/// The seconds left of a section that is to take `target` seconds and
/// began at `start`, as counted at `now`.
pub open spec fn seconds_left(target: u32, start: Instant, now: Instant) -> int {
    target - whole_seconds(now.since(start))
}

/// The timer as a section asks for it at `now`, when the section began at
/// `start`. It is cleared first. A section of sets whose first exercise
/// aims at a number of repetitions is not timed; one that aims at a time
/// only is set to what is left of that time, and runs if the exercise is
/// automatic. A rest with a duration is set to what is left of it and runs.
pub open spec fn section_timer(
    timer: TimerView,
    section: SectionView,
    start: Instant,
    now: Instant,
) -> TimerView {
    let cleared = timer.cleared();
    match section {
        SectionView::ExerciseSet { exercises } => if exercises.len() == 0
            || exercises[0].target_reps is Some {
            cleared
        } else {
            match exercises[0].target_time {
                Some(target) => {
                    let set = cleared.set_to(seconds_left(target, start, now) as i64, now);
                    if exercises[0].automatic {
                        set.started(now)
                    } else {
                        set
                    }
                },
                None => cleared,
            }
        },
        SectionView::Rest { target_time, .. } => if target_time > 0 {
            cleared.set_to(seconds_left(target_time, start, now) as i64, now).started(now)
        } else {
            cleared
        },
    }
}

impl GuideView {
    /// The guide at the first section, begun at `now`, its timer not set.
    pub open spec fn fresh(beep_volume: u8, now: Instant) -> GuideView {
        GuideView {
            section_idx: 0,
            section_start_time: now,
            timer: TimerView::fresh(beep_volume),
            stream: false,
        }
    }

    /// The guide taken up again at `now` from the record of the session
    /// under way: at the section and with the section's beginning that the
    /// record holds, its timer restored from what the record kept of it.
    pub open spec fn resumed(
        record: OngoingTrainingSession,
        beep_volume: u8,
        now: Instant,
    ) -> GuideView {
        GuideView {
            section_idx: record.section_idx,
            section_start_time: record.section_start_time,
            timer: TimerView::fresh(beep_volume).restored(record.timer_state, now),
            stream: false,
        }
    }
}

fn left_of(target: u32, start: Instant, now: Instant) -> (seconds: i64)
    ensures
        seconds as int == seconds_left(target, start, now),
{
    let elapsed = truncate_to_seconds(now.millis_since(start));
    target as i64 - elapsed
}

impl Guide {
    pub fn new(beep_volume: u8, now: Instant) -> (guide: Guide)
        ensures
            guide@ == GuideView::fresh(beep_volume, now),
    {
        Guide { section_idx: 0, section_start_time: now, timer: Timer::new(beep_volume), stream: false }
    }

    pub fn from_ongoing_training_session(
        section_idx: usize,
        section_start_time: Instant,
        beep_volume: u8,
    ) -> (guide: Guide)
        ensures
            guide@ == (GuideView {
                section_idx,
                section_start_time,
                timer: TimerView::fresh(beep_volume),
                stream: false,
            }),
    {
        Guide { section_idx, section_start_time, timer: Timer::new(beep_volume), stream: false }
    }

    /// Sets the timer as `section` asks for it.
    pub fn time_section(&mut self, section: &FormSection, now: Instant)
        ensures
            final(self)@ == (GuideView {
                timer: section_timer(old(self)@.timer, section@, old(self).section_start_time, now),
                ..old(self)@
            }),
    {
        self.timer.unset();
        match section {
            FormSection::ExerciseSet { exercises } => {
                if exercises.len() == 0 {
                    return;
                }
                let exercise = &exercises[0];
                assert(row_views(exercises@)[0] == exercise@);
                if exercise.target_reps.is_some() {
                    return;
                }
                if let Some(target_time) = exercise.target_time {
                    self.timer.set(left_of(target_time, self.section_start_time, now), now);
                    if exercise.automatic {
                        self.timer.start(now);
                    }
                }
            },
            FormSection::Rest { target_time, .. } => {
                if *target_time > 0 {
                    self.timer.set(left_of(*target_time, self.section_start_time, now), now);
                    self.timer.start(now);
                }
            },
        }
    }
}

} // verus!

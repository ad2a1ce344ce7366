//! What the store holds and what it is told: training sessions and their
//! elements, exercises, settings, and the record of the session that is
//! under way.

use vstd::prelude::*;
use vstd::string::*;
use crate::clock::Instant;
use crate::decimal::Decimal;
use crate::text::{nat_text, render_u32};
use crate::timer::TimerState;

verus! {

/// A calendar day, as the number of days since a fixed first day.
#[derive(Clone, Copy, PartialEq, Eq, Debug, Structural)]
pub struct Date {
    pub days: i32,
}

/// One step of a training session: a set of an exercise with what was done
/// and what was aimed at, or a rest. Values that are not recorded or not
/// aimed at are absent.
#[derive(Clone, Copy, Debug)]
pub enum TrainingSessionElement {
    ExerciseSet {
        exercise_id: u32,
        reps: Option<u32>,
        time: Option<u32>,
        weight: Option<Decimal>,
        rpe: Option<Decimal>,
        target_reps: Option<u32>,
        target_time: Option<u32>,
        target_weight: Option<Decimal>,
        target_rpe: Option<Decimal>,
        automatic: bool,
    },
    Rest { target_time: Option<u32>, automatic: bool },
}

impl TrainingSessionElement {
    /// Whether this is a set of the exercise `exercise_id`.
    pub open spec fn is_set_of(self, exercise_id: u32) -> bool {
        self matches TrainingSessionElement::ExerciseSet { exercise_id: id, .. } && id == exercise_id
    }

    /// Whether this is a timed hold: a set with a time to aim at and no
    /// number of repetitions.
    pub open spec fn stands_alone(self) -> bool {
        self matches TrainingSessionElement::ExerciseSet { target_reps, target_time, .. }
            && target_time is Some && target_reps is None
    }
}

/// A training session as stored.
pub struct TrainingSession {
    pub id: u32,
    pub routine_id: Option<u32>,
    pub date: Date,
    pub notes: Option<String>,
    pub elements: Vec<TrainingSessionElement>,
}

/// What a `TrainingSession` holds.
pub struct SessionView {
    pub id: u32,
    pub routine_id: Option<u32>,
    pub date: Date,
    pub notes: Option<Seq<char>>,
    pub elements: Seq<TrainingSessionElement>,
}

impl View for TrainingSession {
    type V = SessionView;

    open spec fn view(&self) -> SessionView {
        SessionView {
            id: self.id,
            routine_id: self.routine_id,
            date: self.date,
            notes: match self.notes {
                Some(notes) => Some(notes@),
                None => None,
            },
            elements: self.elements@,
        }
    }
}

/// An exercise as stored.
pub struct Exercise {
    pub id: u32,
    pub name: String,
}

/// What an `Exercise` holds.
pub struct ExerciseView {
    pub id: u32,
    pub name: Seq<char>,
}

impl View for Exercise {
    type V = ExerciseView;

    open spec fn view(&self) -> ExerciseView {
        ExerciseView { id: self.id, name: self.name@ }
    }
}

#[derive(Clone, Copy, Debug)]
pub struct Settings {
    /// The volume of all tones, in percent.
    pub beep_volume: u8,
    /// Whether the metronome follows the sections of a guided session.
    pub automatic_metronome: bool,
}

/// The record of the one session that is under way.
#[derive(Clone, Copy, Debug)]
pub struct OngoingTrainingSession {
    pub training_session_id: u32,
    pub section_idx: usize,
    pub section_start_time: Instant,
    pub timer_state: TimerState,
}

/// What the library reads of the store.
pub struct DataModel {
    pub training_sessions: Vec<TrainingSession>,
    pub exercises: Vec<Exercise>,
    pub settings: Settings,
    pub ongoing_training_session: Option<OngoingTrainingSession>,
}

/// What a `DataModel` holds.
pub struct DataView {
    pub training_sessions: Seq<SessionView>,
    pub exercises: Seq<ExerciseView>,
    pub settings: Settings,
    pub ongoing_training_session: Option<OngoingTrainingSession>,
}

impl DataView {
    /// No session holds more elements than can be counted.
    pub open spec fn wf(self) -> bool {
        forall|i: int|
            0 <= i < self.training_sessions.len() ==> (
            #[trigger] self.training_sessions[i]).elements.len() <= usize::MAX
    }
}

/// The sessions as what they hold.
pub open spec fn session_views(sessions: Seq<TrainingSession>) -> Seq<SessionView> {
    Seq::new(sessions.len(), |i: int| sessions[i]@)
}

/// The exercises as what they hold.
pub open spec fn exercise_views(exercises: Seq<Exercise>) -> Seq<ExerciseView> {
    Seq::new(exercises.len(), |i: int| exercises[i]@)
}

impl View for DataModel {
    type V = DataView;

    open spec fn view(&self) -> DataView {
        DataView {
            training_sessions: session_views(self.training_sessions@),
            exercises: exercise_views(self.exercises@),
            settings: self.settings,
            ongoing_training_session: self.ongoing_training_session,
        }
    }
}

/// Whether `i` is the place of the first session with the id `id`.
pub open spec fn is_first_with_id(sessions: Seq<SessionView>, id: u32, i: int) -> bool {
    &&& 0 <= i < sessions.len()
    &&& sessions[i].id == id
    &&& forall|j: int| 0 <= j < i ==> (#[trigger] sessions[j]).id != id
}

/// The place of the first session with the id `id`, if there is one.
pub open spec fn session_index(sessions: Seq<SessionView>, id: u32) -> Option<int> {
    if exists|i: int| is_first_with_id(sessions, id, i) {
        Some(choose|i: int| is_first_with_id(sessions, id, i))
    } else {
        None
    }
}

/// The session with the id `id`, if there is one.
pub open spec fn session_with_id(sessions: Seq<SessionView>, id: u32) -> Option<SessionView> {
    match session_index(sessions, id) {
        Some(i) => Some(sessions[i]),
        None => None,
    }
}

/// Finds the first session with the id `id`.
pub fn find_session(sessions: &Vec<TrainingSession>, id: u32) -> (found: Option<usize>)
    ensures
        match found {
            Some(i) => session_index(session_views(sessions@), id) == Some(i as int),
            None => session_index(session_views(sessions@), id) is None,
        },
{
    let ghost views = session_views(sessions@);
    let mut i: usize = 0;
    while i < sessions.len()
        invariant
            i <= sessions.len(),
            views == session_views(sessions@),
            forall|j: int| 0 <= j < i ==> (#[trigger] views[j]).id != id,
        decreases sessions.len() - i,
    {
        if sessions[i].id == id {
            proof {
                assert(is_first_with_id(views, id, i as int));
                let other = choose|k: int| is_first_with_id(views, id, k);
                if other < i {
                    assert(views[other].id != id);
                } else if other > i {
                    assert(views[i as int].id != id);
                }
            }
            return Some(i);
        }
        i = i + 1;
    }
    proof {
        assert forall|k: int| !is_first_with_id(views, id, k) by {
            if 0 <= k < views.len() {
                assert(views[k].id != id);
            }
        }
    }
    None
}

/// The name under which an exercise without an entry is shown.
pub open spec fn placeholder_name(id: u32) -> Seq<char> {
    "Exercise#"@ + nat_text(id as nat)
}

/// Whether `i` is the place of the first exercise with the id `id`.
pub open spec fn is_first_exercise(exercises: Seq<ExerciseView>, id: u32, i: int) -> bool {
    &&& 0 <= i < exercises.len()
    &&& exercises[i].id == id
    &&& forall|j: int| 0 <= j < i ==> (#[trigger] exercises[j]).id != id
}

/// The name of the exercise with the id `id`: that of its first entry, or a
/// placeholder made of the id where it has none.
pub open spec fn name_of(exercises: Seq<ExerciseView>, id: u32) -> Seq<char> {
    if exists|i: int| is_first_exercise(exercises, id, i) {
        exercises[choose|i: int| is_first_exercise(exercises, id, i)].name
    } else {
        placeholder_name(id)
    }
}

/// Looks up the name of an exercise.
pub fn exercise_name(exercises: &Vec<Exercise>, id: u32) -> (name: String)
    ensures
        name@ == name_of(exercise_views(exercises@), id),
{
    let ghost views = exercise_views(exercises@);
    let mut i: usize = 0;
    while i < exercises.len()
        invariant
            i <= exercises.len(),
            views == exercise_views(exercises@),
            forall|j: int| 0 <= j < i ==> (#[trigger] views[j]).id != id,
        decreases exercises.len() - i,
    {
        if exercises[i].id == id {
            proof {
                assert(is_first_exercise(views, id, i as int));
                let other = choose|k: int| is_first_exercise(views, id, k);
                if other < i {
                    assert(views[other].id != id);
                } else if other > i {
                    assert(views[i as int].id != id);
                }
            }
            return exercises[i].name.clone();
        }
        i = i + 1;
    }
    proof {
        assert forall|k: int| !is_first_exercise(views, id, k) by {
            if 0 <= k < views.len() {
                assert(views[k].id != id);
            }
        }
    }
    let number = render_u32(id);
    String::from_str("Exercise#").concat(number.as_str())
}

/// One day of a period with its intensity.
#[derive(Clone, Copy, Debug)]
pub struct Period {
    pub date: Date,
    pub intensity: u8,
}

/// What the store is told.
pub enum StoreMsg {
    /// A guided session of the training session with this id begins.
    StartTrainingSession(u32),
    /// The guide is at this section with its timer in this state.
    UpdateTrainingSession(usize, TimerState),
    /// The guided session is over.
    EndTrainingSession,
    /// The training session with this id gets these notes and elements.
    ModifyTrainingSession(u32, Option<String>, Option<Vec<TrainingSessionElement>>),
    /// This day of a period is new.
    CreatePeriod(Period),
    /// This day of a period replaces the one of the same date.
    ReplacePeriod(Period),
    /// The day of a period on this date goes.
    DeletePeriod(Date),
}

/// What a `StoreMsg` holds.
pub enum StoreMsgView {
    StartTrainingSession(u32),
    UpdateTrainingSession(usize, TimerState),
    EndTrainingSession,
    ModifyTrainingSession(u32, Option<Seq<char>>, Option<Seq<TrainingSessionElement>>),
    CreatePeriod(Period),
    ReplacePeriod(Period),
    DeletePeriod(Date),
}

impl View for StoreMsg {
    type V = StoreMsgView;

    open spec fn view(&self) -> StoreMsgView {
        match *self {
            StoreMsg::StartTrainingSession(id) => StoreMsgView::StartTrainingSession(id),
            StoreMsg::UpdateTrainingSession(section_idx, timer_state) => {
                StoreMsgView::UpdateTrainingSession(section_idx, timer_state)
            },
            StoreMsg::EndTrainingSession => StoreMsgView::EndTrainingSession,
            StoreMsg::CreatePeriod(period) => StoreMsgView::CreatePeriod(period),
            StoreMsg::ReplacePeriod(period) => StoreMsgView::ReplacePeriod(period),
            StoreMsg::DeletePeriod(date) => StoreMsgView::DeletePeriod(date),
            StoreMsg::ModifyTrainingSession(id, notes, elements) => {
                StoreMsgView::ModifyTrainingSession(
                    id,
                    match notes {
                        Some(text) => Some(text@),
                        None => None,
                    },
                    match elements {
                        Some(list) => Some(list@),
                        None => None,
                    },
                )
            },
        }
    }
}

/// What the store reports back.
#[derive(Clone, Copy, Debug)]
pub enum Event {
    DataChanged,
    TrainingSessionModifiedOk,
    TrainingSessionModifiedErr,
    BeepVolumeChanged,
    PeriodCreatedOk,
    PeriodReplacedOk,
    PeriodDeletedOk,
    /// Any other report.
    Other,
}

} // verus!

use std::collections::VecDeque;

use workout_guide::clock::{AudioTime, Instant};
use workout_guide::decimal::Decimal;
use workout_guide::form::FormSection;
use workout_guide::page::training_session::{init, update, Clocks, Command, Model, Msg, Route};
use workout_guide::session::{
    DataModel, Date, Event, Exercise, OngoingTrainingSession, Settings, StoreMsg, TrainingSession,
    TrainingSessionElement,
};
use workout_guide::timer::TimerState;

const T0: i64 = 1_700_000_000_000;

fn at(seconds: i64) -> Clocks {
    Clocks { now: Instant::from_millis(T0 + seconds * 1000), audio: None }
}

fn with_audio(seconds: i64, micros: u64) -> Clocks {
    Clocks {
        now: Instant::from_millis(T0 + seconds * 1000),
        audio: Some(AudioTime::from_micros(micros)),
    }
}

fn hold(exercise_id: u32, seconds: u32, automatic: bool) -> TrainingSessionElement {
    TrainingSessionElement::ExerciseSet {
        exercise_id,
        reps: None,
        time: None,
        weight: None,
        rpe: None,
        target_reps: None,
        target_time: Some(seconds),
        target_weight: None,
        target_rpe: None,
        automatic,
    }
}

fn reps(exercise_id: u32, target_reps: u32, target_time: Option<u32>) -> TrainingSessionElement {
    TrainingSessionElement::ExerciseSet {
        exercise_id,
        reps: None,
        time: None,
        weight: None,
        rpe: None,
        target_reps: Some(target_reps),
        target_time,
        target_weight: Some(Decimal { tenths: 600 }),
        target_rpe: None,
        automatic: false,
    }
}

fn rest(seconds: u32, automatic: bool) -> TrainingSessionElement {
    TrainingSessionElement::Rest {
        target_time: if seconds > 0 { Some(seconds) } else { None },
        automatic,
    }
}

fn data(elements: Vec<TrainingSessionElement>) -> DataModel {
    DataModel {
        training_sessions: vec![TrainingSession {
            id: 42,
            routine_id: Some(1),
            date: Date { days: 739_000 },
            notes: Some(String::from("legs")),
            elements,
        }],
        exercises: vec![Exercise { id: 7, name: String::from("Squat") }],
        settings: Settings { beep_volume: 80, automatic_metronome: false },
        ongoing_training_session: None,
    }
}

fn enter(data_model: &DataModel) -> Model {
    let (model, commands) = init(Some("42"), None, data_model, at(0).now);
    assert!(commands.is_empty());
    model
}

fn section_idx(model: &Model) -> Option<usize> {
    model.guide.as_ref().map(|guide| guide.section_idx)
}

/// Runs the page as its surroundings would: messages in their order, the
/// store answering a save, and a tick every second while the guide asks for
/// one.
struct Harness {
    model: Model,
    data_model: DataModel,
    queue: VecDeque<Msg>,
    ticking: bool,
    ended: usize,
    started: usize,
    saved: usize,
    persisted: Vec<(usize, TimerState)>,
    shown: Vec<String>,
    closed: usize,
    beeps: usize,
}

impl Harness {
    fn new(data_model: DataModel) -> Harness {
        let model = enter(&data_model);
        Harness {
            model,
            data_model,
            queue: VecDeque::new(),
            ticking: false,
            ended: 0,
            started: 0,
            saved: 0,
            persisted: Vec::new(),
            shown: Vec::new(),
            closed: 0,
            beeps: 0,
        }
    }

    fn send(&mut self, msg: Msg, clocks: Clocks) {
        self.queue.push_back(msg);
        let mut steps = 0;
        while let Some(next) = self.queue.pop_front() {
            steps += 1;
            assert!(steps < 1000, "the messages do not come to an end");
            assert!(self.model.well_formed());
            let commands = update(next, &mut self.model, &self.data_model, clocks);
            assert!(self.model.well_formed());
            for command in commands {
                match command {
                    Command::SendMsg(msg) => self.queue.push_back(msg),
                    Command::Notify(StoreMsg::StartTrainingSession(id)) => {
                        assert_eq!(id, 42);
                        self.started += 1;
                    },
                    Command::Notify(StoreMsg::UpdateTrainingSession(idx, state)) => {
                        self.persisted.push((idx, state));
                    },
                    Command::Notify(StoreMsg::EndTrainingSession) => self.ended += 1,
                    Command::Notify(StoreMsg::ModifyTrainingSession(id, notes, elements)) => {
                        assert_eq!(id, 42);
                        self.saved += 1;
                        self.data_model.training_sessions[0].notes = notes;
                        self.data_model.training_sessions[0].elements = elements.unwrap();
                        self.queue.push_back(Msg::DataEvent(Event::TrainingSessionModifiedOk));
                    },
                    Command::Notify(_) => panic!("nothing else is told to the store"),
                    Command::ShowNotification(notification) => self.shown.push(notification.title),
                    Command::CloseNotification => self.closed += 1,
                    Command::Beep(_) => self.beeps += 1,
                    Command::GuideStream(on) => self.ticking = on,
                    Command::TimerStream(_) => {},
                    Command::ForceRender => {},
                    Command::PushUrl(_) => {},
                    Command::ScrollIntoView(_) => {},
                }
            }
        }
    }
}

#[test]
fn the_guide_advances_and_ends_on_its_own() {
    let mut harness = Harness::new(data(vec![hold(7, 30, true), rest(15, true)]));
    harness.send(Msg::StartGuidedTrainingSession, at(0));
    assert_eq!(section_idx(&harness.model), Some(0));
    assert!(harness.ticking);
    assert_eq!(harness.started, 1);
    assert_eq!(harness.shown, vec![String::from("Squat")]);

    let mut advanced_at = None;
    let mut ended_at = None;
    for second in 1..=60 {
        if !harness.ticking {
            break;
        }
        harness.send(Msg::UpdateGuidedTrainingSession, at(second));
        if advanced_at.is_none() && section_idx(&harness.model) == Some(1) {
            advanced_at = Some(second);
        }
        if ended_at.is_none() && harness.model.guide.is_none() {
            ended_at = Some(second);
        }
    }
    assert_eq!(advanced_at, Some(30));
    assert_eq!(ended_at, Some(45));
    assert_eq!(harness.ended, 1);
    assert!(!harness.ticking);
    assert_eq!(harness.shown, vec![String::from("Squat"), String::from("Rest")]);
    assert_eq!(harness.closed, 1);

    assert_eq!(harness.saved, 1);
    assert!(matches!(
        harness.data_model.training_sessions[0].elements[0],
        TrainingSessionElement::ExerciseSet { time: Some(30), target_time: Some(30), .. }
    ));
    assert!(!harness.model.has_unsaved_changes());
    assert!(!harness.model.loading);
}

#[test]
fn the_store_is_told_of_every_section() {
    let mut harness = Harness::new(data(vec![hold(7, 30, true), rest(15, true)]));
    harness.send(Msg::StartGuidedTrainingSession, at(0));
    for second in 1..=45 {
        harness.send(Msg::UpdateGuidedTrainingSession, at(second));
    }
    assert_eq!(harness.persisted.len(), 2);
    assert_eq!(harness.persisted[0].0, 0);
    match harness.persisted[0].1 {
        TimerState::Active { target_time } => assert_eq!(target_time.millis, T0 + 30_000),
        _ => panic!("the first section's timer runs"),
    }
    assert_eq!(harness.persisted[1].0, 1);
    match harness.persisted[1].1 {
        TimerState::Active { target_time } => assert_eq!(target_time.millis, T0 + 45_000),
        _ => panic!("the rest's timer runs"),
    }
}

#[test]
fn the_countdown_of_the_guide_is_heard() {
    let mut harness = Harness::new(data(vec![hold(7, 5, true)]));
    harness.send(Msg::StartGuidedTrainingSession, at(0));
    for second in 1..=5 {
        harness.send(Msg::UpdateGuidedTrainingSession, with_audio(second, second as u64 * 1_000_000));
    }
    assert_eq!(harness.beeps, 4);
    assert!(harness.model.guide.is_none());
    assert_eq!(harness.ended, 1);
}

#[test]
fn a_section_that_is_not_automatic_waits_for_the_timer_to_be_started() {
    let mut harness = Harness::new(data(vec![hold(7, 30, false), rest(0, false)]));
    harness.send(Msg::StartGuidedTrainingSession, at(0));
    assert!(!harness.ticking);
    let guide = harness.model.guide.as_ref().unwrap();
    assert!(guide.timer.is_set());
    assert!(!guide.timer.is_active());
    assert_eq!(guide.timer.input, "30");
    assert!(matches!(harness.persisted[0], (0, TimerState::Paused { time: 30 })));

    harness.send(Msg::StartPauseGuideTimer, at(10));
    assert!(harness.ticking);
    match harness.persisted[1] {
        (0, TimerState::Active { target_time }) => assert_eq!(target_time.millis, T0 + 40_000),
        _ => panic!("the timer runs"),
    }
    harness.send(Msg::UpdateGuidedTrainingSession, at(25));
    harness.send(Msg::StartPauseGuideTimer, at(25));
    assert!(!harness.ticking);
    assert!(matches!(harness.persisted[2], (0, TimerState::Paused { time: 15 })));
    assert_eq!(section_idx(&harness.model), Some(0));
}

#[test]
fn going_on_and_back_by_hand() {
    let mut harness = Harness::new(data(vec![
        reps(7, 10, Some(4)),
        rest(60, false),
        reps(7, 8, None),
    ]));
    harness.data_model.settings.automatic_metronome = true;
    harness.send(Msg::GoToNextSection, at(0));
    harness.send(Msg::GoToPreviousSection, at(0));
    assert!(harness.model.guide.is_none());
    assert!(harness.persisted.is_empty());

    harness.send(Msg::StartGuidedTrainingSession, at(0));
    assert!(!harness.model.guide.as_ref().unwrap().timer.is_set());
    assert!(harness.model.timer_dialog.metronome.is_active());
    assert_eq!(harness.model.timer_dialog.metronome.interval, 4);
    assert_eq!(harness.model.timer_dialog.metronome.stressed_beat, 1);
    assert!(matches!(harness.persisted[0], (0, TimerState::Unset)));

    harness.send(Msg::GoToPreviousSection, at(1));
    assert_eq!(section_idx(&harness.model), Some(0));
    assert_eq!(harness.persisted.len(), 1);
    assert_eq!(harness.closed, 0);

    harness.send(Msg::GoToNextSection, at(20));
    assert_eq!(section_idx(&harness.model), Some(1));
    assert!(!harness.model.timer_dialog.metronome.is_active());
    let guide = harness.model.guide.as_ref().unwrap();
    assert_eq!(guide.section_start_time.millis, T0 + 20_000);
    assert_eq!(guide.timer.target_time.map(|t| t.millis), Some(T0 + 80_000));
    assert!(guide.stream);
    assert!(harness.ticking);
    assert_eq!(harness.shown.last().map(String::as_str), Some("Rest"));

    harness.send(Msg::UpdateGuidedTrainingSession, at(90));
    assert_eq!(section_idx(&harness.model), Some(1));
    assert_eq!(harness.model.guide.as_ref().unwrap().timer.time, Some(-10));

    harness.send(Msg::GoToNextSection, at(95));
    assert_eq!(section_idx(&harness.model), Some(2));
    assert!(!harness.ticking);
    assert!(!harness.model.guide.as_ref().unwrap().timer.is_set());

    harness.send(Msg::GoToPreviousSection, at(100));
    assert_eq!(section_idx(&harness.model), Some(1));
    assert_eq!(harness.closed, 1);
    assert_eq!(
        harness.model.guide.as_ref().unwrap().timer.target_time.map(|t| t.millis),
        Some(T0 + 160_000)
    );
    harness.send(Msg::GoToNextSection, at(101));
    harness.send(Msg::GoToNextSection, at(102));
    assert!(harness.model.guide.is_none());
    assert_eq!(harness.ended, 1);
    assert_eq!(harness.saved, 0);
    harness.send(Msg::GoToNextSection, at(103));
    assert_eq!(harness.ended, 1);
}

#[test]
fn polling_an_untimed_section_clears_the_duration_to_go_back_to() {
    let mut harness = Harness::new(data(vec![reps(7, 10, None)]));
    harness.send(Msg::StartGuidedTrainingSession, at(0));
    harness.model.guide.as_mut().unwrap().timer.reset_time = 9;
    harness.send(Msg::UpdateGuidedTrainingSession, at(1));
    assert_eq!(harness.model.guide.as_ref().unwrap().timer.reset_time, 0);
    assert_eq!(section_idx(&harness.model), Some(0));
}

#[test]
fn guided_mode_without_sections_does_nothing_much() {
    let mut harness = Harness::new(data(vec![]));
    harness.send(Msg::StartGuidedTrainingSession, at(0));
    assert_eq!(section_idx(&harness.model), Some(0));
    assert!(harness.shown.is_empty());
    harness.send(Msg::UpdateGuidedTrainingSession, at(1));
    harness.send(Msg::GoToPreviousSection, at(2));
    assert_eq!(section_idx(&harness.model), Some(0));
    harness.send(Msg::GoToNextSection, at(3));
    assert!(harness.model.guide.is_none());
    assert_eq!(harness.ended, 1);
}

#[test]
fn resuming_takes_the_timer_from_the_record() {
    let mut data_model = data(vec![hold(7, 30, true), rest(60, true)]);
    let record = OngoingTrainingSession {
        training_session_id: 42,
        section_idx: 1,
        section_start_time: Instant::from_millis(T0 - 50_000),
        timer_state: TimerState::Active { target_time: Instant::from_millis(T0 + 10_000) },
    };
    data_model.ongoing_training_session = Some(record);
    let (mut model, commands) = init(Some("42"), Some("guide"), &data_model, at(4).now);
    assert_eq!(commands.len(), 1);
    assert_eq!(section_idx(&model), Some(0));
    let resume = match commands.into_iter().next() {
        Some(Command::SendMsg(msg)) => msg,
        _ => panic!("the guide is asked to take the session up again"),
    };
    assert!(matches!(resume, Msg::ContinueGuidedTrainingSession(_)));
    let commands = update(resume, &mut model, &data_model, at(4));
    let guide = model.guide.as_ref().unwrap();
    assert_eq!(guide.section_idx, 1);
    assert_eq!(guide.section_start_time.millis, T0 - 50_000);
    assert!(guide.timer.is_active());
    assert_eq!(guide.timer.time, Some(6));
    assert_eq!(guide.timer.remaining(at(4).now), Some(6));
    assert_eq!(guide.timer.target_time.map(|t| t.millis), Some(T0 + 10_000));
    assert!(guide.stream);
    assert!(matches!(commands[0], Command::GuideStream(true)));
    assert!(matches!(commands[1], Command::TimerStream(false)));
    assert!(matches!(&commands[2], Command::ShowNotification(n) if n.title == "Rest"));
    assert!(matches!(commands[3], Command::ForceRender));
    assert!(matches!(commands[4], Command::SendMsg(Msg::ScrollToSection)));
    assert!(matches!(commands[5], Command::PushUrl(Route::Guide)));
    assert_eq!(commands.len(), 6);
}

#[test]
fn resuming_a_paused_record_beyond_the_form() {
    let data_model = data(vec![rest(60, true)]);
    let mut model = enter(&data_model);
    let record = OngoingTrainingSession {
        training_session_id: 42,
        section_idx: 5,
        section_start_time: Instant::from_millis(T0),
        timer_state: TimerState::Paused { time: 17 },
    };
    let commands = update(Msg::ContinueGuidedTrainingSession(record), &mut model, &data_model, at(9));
    let guide = model.guide.as_ref().unwrap();
    assert_eq!(guide.section_idx, 5);
    assert!(!guide.timer.is_active());
    assert_eq!(guide.timer.time, Some(17));
    assert!(!commands.iter().any(|c| matches!(c, Command::ShowNotification(_))));
    let commands = update(Msg::UpdateGuidedTrainingSession, &mut model, &data_model, at(10));
    assert!(commands.is_empty());
    let commands = update(Msg::GoToNextSection, &mut model, &data_model, at(11));
    assert!(model.guide.is_none());
    assert!(commands.iter().any(|c| matches!(c, Command::Notify(StoreMsg::EndTrainingSession))));
}

#[test]
fn the_commands_of_a_start_come_in_order() {
    let mut data_model = data(vec![reps(7, 10, Some(3))]);
    data_model.settings.automatic_metronome = true;
    let mut model = enter(&data_model);
    let commands = update(Msg::StartGuidedTrainingSession, &mut model, &data_model, at(0));
    assert_eq!(commands.len(), 7);
    assert!(matches!(commands[0], Command::GuideStream(false)));
    assert!(matches!(commands[1], Command::TimerStream(false)));
    assert!(matches!(commands[2], Command::Notify(StoreMsg::StartTrainingSession(42))));
    assert!(matches!(commands[3], Command::SendMsg(Msg::StartMetronome(3))));
    assert!(matches!(
        commands[4],
        Command::Notify(StoreMsg::UpdateTrainingSession(0, TimerState::Unset))
    ));
    match &commands[5] {
        Command::ShowNotification(notification) => {
            assert_eq!(notification.title, "Squat");
            assert_eq!(notification.body.as_deref(), Some("Target:\n10 × 3 s × 60 kg\n"));
        },
        _ => panic!("the section is announced"),
    }
    assert!(matches!(commands[6], Command::PushUrl(Route::Guide)));
}

#[test]
fn the_commands_of_a_step_come_in_order() {
    let data_model = data(vec![rest(10, false), rest(20, true)]);
    let mut model = enter(&data_model);
    update(Msg::StartGuidedTrainingSession, &mut model, &data_model, at(0));
    update(Msg::NotesChanged(String::from("done")), &mut model, &data_model, at(1));
    let commands = update(Msg::GoToNextSection, &mut model, &data_model, at(2));
    assert_eq!(commands.len(), 8);
    assert!(matches!(commands[0], Command::GuideStream(true)));
    assert!(matches!(commands[1], Command::TimerStream(false)));
    assert!(matches!(
        commands[2],
        Command::Notify(StoreMsg::UpdateTrainingSession(1, TimerState::Active { .. }))
    ));
    assert!(matches!(&commands[3], Command::ShowNotification(n) if n.body.as_deref() == Some("20 s")));
    assert!(matches!(commands[4], Command::ForceRender));
    assert!(matches!(commands[5], Command::SendMsg(Msg::UpdateGuidedTrainingSession)));
    assert!(matches!(commands[6], Command::SendMsg(Msg::ScrollToSection)));
    assert!(matches!(commands[7], Command::SendMsg(Msg::SaveTrainingSession)));

    let commands = update(Msg::GoToNextSection, &mut model, &data_model, at(3));
    assert!(model.guide.is_none());
    assert_eq!(commands.len(), 7);
    assert!(matches!(commands[0], Command::SendMsg(Msg::PauseMetronome)));
    assert!(matches!(commands[1], Command::Notify(StoreMsg::EndTrainingSession)));
    assert!(matches!(commands[2], Command::CloseNotification));
    assert!(matches!(commands[3], Command::GuideStream(false)));
    assert!(matches!(commands[4], Command::TimerStream(false)));
    assert!(matches!(commands[5], Command::ForceRender));
    assert!(matches!(commands[6], Command::SendMsg(Msg::SaveTrainingSession)));
}

#[test]
fn scrolling_follows_the_guide() {
    let data_model = data(vec![rest(10, false), rest(20, true)]);
    let mut model = enter(&data_model);
    assert!(update(Msg::ScrollToSection, &mut model, &data_model, at(0)).is_empty());
    update(Msg::StartGuidedTrainingSession, &mut model, &data_model, at(0));
    update(Msg::GoToNextSection, &mut model, &data_model, at(1));
    let commands = update(Msg::ScrollToSection, &mut model, &data_model, at(2));
    assert_eq!(commands.len(), 1);
    assert!(matches!(commands[0], Command::ScrollIntoView(1)));
}

#[test]
fn a_change_of_the_data_sets_the_timer_anew() {
    let mut data_model = data(vec![hold(7, 30, false)]);
    let mut model = enter(&data_model);
    update(Msg::StartGuidedTrainingSession, &mut model, &data_model, at(0));
    update(Msg::StartPauseGuideTimer, &mut model, &data_model, at(5));
    assert!(model.guide.as_ref().unwrap().timer.is_active());
    update(Msg::NotesChanged(String::from("x")), &mut model, &data_model, at(6));
    model.loading = true;

    data_model.training_sessions[0].elements = vec![hold(7, 40, true), rest(5, false)];
    let commands = update(Msg::DataEvent(Event::DataChanged), &mut model, &data_model, at(12));
    assert!(!model.loading);
    assert_eq!(model.form.sections.len(), 2);
    assert_eq!(model.form.notes, "legs");
    assert!(!model.has_unsaved_changes());
    let guide = model.guide.as_ref().unwrap();
    assert_eq!(guide.timer.time, Some(28));
    assert_eq!(guide.timer.target_time.map(|t| t.millis), Some(T0 + 40_000));
    assert!(guide.stream);
    assert_eq!(commands.len(), 2);
    assert!(matches!(commands[0], Command::GuideStream(true)));

    model.loading = true;
    update(Msg::NotesChanged(String::from("y")), &mut model, &data_model, at(13));
    update(Msg::DataEvent(Event::TrainingSessionModifiedErr), &mut model, &data_model, at(14));
    assert!(!model.loading);
    assert!(model.has_unsaved_changes());
    assert_eq!(model.guide.as_ref().unwrap().timer.time, Some(26));

    data_model.training_sessions.clear();
    update(Msg::DataEvent(Event::TrainingSessionModifiedOk), &mut model, &data_model, at(15));
    assert!(model.form.sections.is_empty());
    assert!(model.guide.is_some());
    let commands = update(Msg::DataEvent(Event::Other), &mut model, &data_model, at(16));
    assert!(commands.is_empty());
}

#[test]
fn a_change_of_the_volume_reaches_every_instrument() {
    let mut data_model = data(vec![rest(10, false)]);
    let mut model = enter(&data_model);
    update(Msg::StartGuidedTrainingSession, &mut model, &data_model, at(0));
    data_model.settings.beep_volume = 15;
    let commands = update(Msg::DataEvent(Event::BeepVolumeChanged), &mut model, &data_model, at(1));
    assert!(commands.is_empty());
    assert_eq!(model.timer_dialog.metronome.beep_volume, 15);
    assert_eq!(model.timer_dialog.timer.beep_volume, 15);
    assert_eq!(model.guide.as_ref().unwrap().timer.beep_volume, 15);
}

#[test]
fn entering_the_page() {
    let data_model = data(vec![rest(10, false)]);
    let (model, commands) = init(Some("42"), Some("edit"), &data_model, at(0).now);
    assert!(commands.is_empty());
    assert_eq!(model.training_session_id, 42);
    assert!(model.editing);
    assert!(model.guide.is_none());
    assert!(!model.loading);
    assert!(!model.timer_stream);
    assert_eq!(model.form.sections.len(), 1);
    assert_eq!(model.form.notes, "legs");
    assert!(!model.timer_dialog.visible);
    assert_eq!(model.timer_dialog.stopwatch.time, 0);
    assert!(!model.timer_dialog.stopwatch.is_active());
    assert!(!model.timer_dialog.metronome.is_active());
    assert_eq!(model.timer_dialog.metronome.interval, 1);
    assert_eq!(model.timer_dialog.metronome.stressed_beat, 1);
    assert_eq!(model.timer_dialog.metronome.beep_volume, 80);
    assert_eq!(model.timer_dialog.timer.input, "60");
    assert_eq!(model.timer_dialog.timer.time, Some(60));
    assert_eq!(model.timer_dialog.timer.reset_time, 60);
    assert!(!model.timer_dialog.timer.is_active());
    assert_eq!(model.timer_dialog.timer.beep_volume, 80);

    let (model, _) = init(Some("42"), Some("guide"), &data_model, at(3).now);
    assert!(!model.editing);
    let guide = model.guide.as_ref().unwrap();
    assert_eq!(guide.section_idx, 0);
    assert_eq!(guide.section_start_time.millis, T0 + 3_000);
    assert!(!guide.timer.is_set());

    for (part, id) in [(Some("x"), 0u32), (None, 0), (Some(""), 0), (Some("7"), 7), (Some("-1"), 0)] {
        let (model, _) = init(part, Some("guides"), &data_model, at(0).now);
        assert_eq!(model.training_session_id, id);
        assert!(model.form.sections.is_empty());
        assert!(model.guide.is_none() && !model.editing);
    }
}

#[test]
fn the_record_of_another_session_is_left_alone() {
    let mut data_model = data(vec![rest(10, false)]);
    data_model.ongoing_training_session = Some(OngoingTrainingSession {
        training_session_id: 41,
        section_idx: 0,
        section_start_time: Instant::from_millis(T0),
        timer_state: TimerState::Unset,
    });
    let (_, commands) = init(Some("42"), None, &data_model, at(0).now);
    assert!(commands.is_empty());
    let (_, commands) = init(Some("41"), None, &data_model, at(0).now);
    assert_eq!(commands.len(), 1);
}

fn row(model: &Model, section: usize, exercise: usize) -> &workout_guide::form::ExerciseForm {
    match &model.form.sections[section] {
        FormSection::ExerciseSet { exercises } => &exercises[exercise],
        FormSection::Rest { .. } => panic!("a section of sets"),
    }
}

#[test]
fn typing_into_the_fields() {
    let data_model = data(vec![reps(7, 10, None), reps(7, 8, None), rest(60, false)]);
    let mut model = enter(&data_model);
    assert!(!model.has_unsaved_changes());
    assert!(update(Msg::RepsChanged(0, 1, String::from("12")), &mut model, &data_model, at(0)).is_empty());
    assert_eq!(row(&model, 0, 1).reps.parsed, Some(12));
    assert_eq!(row(&model, 0, 0).reps.parsed, None);
    assert!(!row(&model, 0, 0).reps.changed);
    assert!(model.has_unsaved_changes());
    assert!(model.form.valid());

    update(Msg::TimeChanged(0, 1, String::from("45")), &mut model, &data_model, at(0));
    update(Msg::WeightChanged(0, 1, String::from("62.5")), &mut model, &data_model, at(0));
    update(Msg::RPEChanged(0, 1, String::from("9")), &mut model, &data_model, at(0));
    assert_eq!(row(&model, 0, 1).time.parsed, Some(45));
    assert_eq!(row(&model, 0, 1).weight.parsed, Some(Decimal { tenths: 625 }));
    assert_eq!(row(&model, 0, 1).rpe.parsed, Some(Decimal { tenths: 90 }));

    update(Msg::RPEChanged(0, 0, String::from("11")), &mut model, &data_model, at(0));
    assert_eq!(row(&model, 0, 0).rpe.input, "11");
    assert!(!row(&model, 0, 0).rpe.valid);
    assert!(!model.form.valid());
    update(Msg::RPEChanged(0, 0, String::new()), &mut model, &data_model, at(0));
    assert!(model.form.valid());

    update(Msg::RepsChanged(0, 2, String::from("1")), &mut model, &data_model, at(0));
    update(Msg::RepsChanged(1, 0, String::from("1")), &mut model, &data_model, at(0));
    update(Msg::WeightChanged(9, 0, String::from("1")), &mut model, &data_model, at(0));
    update(Msg::EnterTargetValues(1, 0), &mut model, &data_model, at(0));
    update(Msg::EnterPreviousValues(3, 3), &mut model, &data_model, at(0));
    assert_eq!(model.form.sections.len(), 2);
    assert_eq!(row(&model, 0, 0).reps.parsed, None);

    update(Msg::EnterTargetValues(0, 0), &mut model, &data_model, at(0));
    assert_eq!(row(&model, 0, 0).reps.parsed, Some(10));
    assert_eq!(row(&model, 0, 0).reps.input, "10");
    assert_eq!(row(&model, 0, 0).weight.input, "60");
    assert_eq!(row(&model, 0, 0).time.input, "");
    update(Msg::EnterPreviousValues(0, 0), &mut model, &data_model, at(0));
    assert_eq!(row(&model, 0, 0).reps.parsed, None);
    assert_eq!(row(&model, 0, 0).reps.input, "");
    assert!(row(&model, 0, 0).reps.changed);
}

#[test]
fn saving_sends_the_form_to_the_store() {
    let data_model = data(vec![reps(7, 10, None), rest(0, true)]);
    let mut model = enter(&data_model);
    update(Msg::RepsChanged(0, 0, String::from("9")), &mut model, &data_model, at(0));
    update(Msg::NotesChanged(String::from("tired")), &mut model, &data_model, at(0));
    assert_eq!(model.form.notes, "tired");
    assert!(model.form.notes_changed);
    let commands = update(Msg::SaveTrainingSession, &mut model, &data_model, at(0));
    assert!(model.loading);
    assert_eq!(commands.len(), 1);
    match &commands[0] {
        Command::Notify(StoreMsg::ModifyTrainingSession(id, notes, elements)) => {
            assert_eq!(*id, 42);
            assert_eq!(notes.as_deref(), Some("tired"));
            let elements = elements.as_ref().unwrap();
            assert_eq!(elements.len(), 2);
            assert!(matches!(
                elements[0],
                TrainingSessionElement::ExerciseSet { exercise_id: 7, reps: Some(9), target_reps: Some(10), .. }
            ));
            assert!(matches!(
                elements[1],
                TrainingSessionElement::Rest { target_time: None, automatic: true }
            ));
        },
        _ => panic!("the store is told"),
    }
    let commands = update(Msg::EditTrainingSession, &mut model, &data_model, at(0));
    assert!(model.editing);
    assert_eq!(commands.len(), 1);
    assert!(matches!(commands[0], Command::PushUrl(Route::Edit)));
}

#[test]
fn the_dialog_and_its_stopwatch() {
    let data_model = data(vec![]);
    let mut model = enter(&data_model);
    update(Msg::ShowSMTDialog, &mut model, &data_model, at(0));
    assert!(model.timer_dialog.visible);
    let commands = update(Msg::ToggleStopwatch, &mut model, &data_model, at(1));
    assert!(model.timer_dialog.stopwatch.is_active());
    assert!(model.timer_stream);
    assert_eq!(commands.len(), 2);
    assert!(matches!(commands[0], Command::GuideStream(false)));
    assert!(matches!(commands[1], Command::TimerStream(true)));
    update(Msg::UpdateSMTDialog, &mut model, &data_model, at(3));
    assert_eq!(model.timer_dialog.stopwatch.time, 2_000);
    let commands = update(Msg::ResetStopwatch, &mut model, &data_model, at(4));
    assert!(commands.is_empty());
    assert_eq!(model.timer_dialog.stopwatch.time, 0);
    assert!(model.timer_stream);
    update(Msg::UpdateSMTDialog, &mut model, &data_model, at(6));
    let commands = update(Msg::StartPauseStopwatch, &mut model, &data_model, at(7));
    assert_eq!(model.timer_dialog.stopwatch.time, 3_000);
    assert!(!model.timer_stream);
    assert!(matches!(commands[1], Command::TimerStream(false)));
    update(Msg::ToggleStopwatch, &mut model, &data_model, at(8));
    assert_eq!(model.timer_dialog.stopwatch.time, 0);
    assert!(!model.timer_dialog.stopwatch.is_active());
    update(Msg::CloseSMTDialog, &mut model, &data_model, at(9));
    assert!(!model.timer_dialog.visible);
}

#[test]
fn the_dialog_and_its_metronome() {
    let data_model = data(vec![]);
    let mut model = enter(&data_model);
    update(Msg::MetronomeIntervalChanged(String::from("2")), &mut model, &data_model, at(0));
    update(Msg::MetronomeStressChanged(String::from("4")), &mut model, &data_model, at(0));
    assert_eq!(model.timer_dialog.metronome.interval, 2);
    assert_eq!(model.timer_dialog.metronome.stressed_beat, 4);
    update(Msg::MetronomeIntervalChanged(String::from("0")), &mut model, &data_model, at(0));
    update(Msg::MetronomeStressChanged(String::from("often")), &mut model, &data_model, at(0));
    assert_eq!(model.timer_dialog.metronome.interval, 1);
    assert_eq!(model.timer_dialog.metronome.stressed_beat, 1);
    update(Msg::MetronomeStressChanged(String::from("2")), &mut model, &data_model, at(0));

    let commands = update(Msg::StartPauseMetronome, &mut model, &data_model, with_audio(1, 4_000_000));
    assert!(model.timer_dialog.metronome.is_active());
    assert!(model.timer_stream);
    assert!(matches!(commands[1], Command::TimerStream(true)));
    let commands = update(Msg::UpdateSMTDialog, &mut model, &data_model, with_audio(3, 6_000_000));
    assert_eq!(commands.len(), 2);
    match (&commands[0], &commands[1]) {
        (Command::Beep(first), Command::Beep(second)) => {
            assert_eq!(first.start, AudioTime { micros: 4_500_000 });
            assert_eq!(first.frequency, 1000);
            assert_eq!(second.start, AudioTime { micros: 5_500_000 });
            assert_eq!(second.frequency, 500);
            assert_eq!(second.volume, 80);
        },
        _ => panic!("two beats are due"),
    }
    update(Msg::PauseMetronome, &mut model, &data_model, at(4));
    assert!(!model.timer_dialog.metronome.is_active());
    assert!(!model.timer_stream);

    update(Msg::StartMetronome(0), &mut model, &data_model, with_audio(5, 9_000_000));
    assert_eq!(model.timer_dialog.metronome.interval, 1);
    assert!(model.timer_dialog.metronome.is_active());
    update(Msg::StartMetronome(5), &mut model, &data_model, with_audio(5, 9_000_000));
    assert_eq!(model.timer_dialog.metronome.interval, 5);
    assert_eq!(model.timer_dialog.metronome.stressed_beat, 1);
    assert_eq!(model.timer_dialog.metronome.next_beat_time, AudioTime { micros: 9_500_000 });
}

#[test]
fn the_dialog_and_its_timer() {
    let data_model = data(vec![]);
    let mut model = enter(&data_model);
    update(Msg::TimerTimeChanged(String::from("4")), &mut model, &data_model, at(0));
    assert_eq!(model.timer_dialog.timer.time, Some(4));
    let commands = update(Msg::StartPauseTimer, &mut model, &data_model, at(10));
    assert!(model.timer_dialog.timer.is_active());
    assert!(model.timer_stream);
    assert!(matches!(commands[1], Command::TimerStream(true)));
    let commands = update(Msg::UpdateSMTDialog, &mut model, &data_model, with_audio(11, 1_000_000));
    assert_eq!(commands.len(), 1);
    match &commands[0] {
        Command::Beep(beep) => {
            assert_eq!(beep.frequency, 2000);
            assert_eq!(beep.start, AudioTime { micros: 1_010_000 });
            assert_eq!(beep.length, 150_000);
        },
        _ => panic!("a tone is due"),
    }
    assert_eq!(model.timer_dialog.timer.input, "3");
    let commands = update(Msg::ResetTimer, &mut model, &data_model, at(12));
    assert!(commands.is_empty());
    assert_eq!(model.timer_dialog.timer.input, "4");
    assert_eq!(model.timer_dialog.timer.target_time.map(|t| t.millis), Some(T0 + 16_000));
    update(Msg::StartPauseTimer, &mut model, &data_model, at(13));
    assert!(!model.timer_dialog.timer.is_active());
    assert!(!model.timer_stream);

    update(Msg::TimerTimeChanged(String::from("soon")), &mut model, &data_model, at(14));
    assert_eq!(model.timer_dialog.timer.input, "soon");
    assert_eq!(model.timer_dialog.timer.time, None);
    let commands = update(Msg::StartPauseTimer, &mut model, &data_model, at(15));
    assert!(!model.timer_dialog.timer.is_active());
    assert!(matches!(commands[1], Command::TimerStream(false)));
}

#[test]
fn a_model_out_of_order_is_told_apart() {
    let data_model = data(vec![rest(10, true)]);
    let mut model = enter(&data_model);
    assert!(model.well_formed());
    model.timer_dialog.metronome.interval = 0;
    assert!(!model.well_formed());
    model.timer_dialog.metronome.interval = 1;
    model.timer_dialog.metronome.stressed_beat = 0;
    assert!(!model.well_formed());
    model.timer_dialog.metronome.stressed_beat = 1;
    model.timer_stream = true;
    assert!(!model.well_formed());
    model.timer_stream = false;
    update(Msg::StartGuidedTrainingSession, &mut model, &data_model, at(0));
    assert!(model.well_formed());
    model.guide.as_mut().unwrap().stream = false;
    assert!(!model.well_formed());
}

#[test]
fn leaving_the_page_takes_everything_down() {
    let data_model = data(vec![rest(10, true)]);
    let mut model = enter(&data_model);
    update(Msg::StartGuidedTrainingSession, &mut model, &data_model, at(0));
    let commands = model.teardown();
    assert_eq!(commands.len(), 3);
    assert!(matches!(commands[0], Command::CloseNotification));
    assert!(matches!(commands[1], Command::GuideStream(false)));
    assert!(matches!(commands[2], Command::TimerStream(false)));
}

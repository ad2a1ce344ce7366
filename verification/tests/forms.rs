use workout_guide::builder::{
    count_sets_before, find_nth_set, init_form, previous_session, previous_sets,
};
use workout_guide::decimal::Decimal;
use workout_guide::form::{Form, FormSection};
use workout_guide::notification::{format_set, section_notification};
use workout_guide::session::{
    exercise_name, find_session, DataModel, Date, Exercise, Settings, TrainingSession,
    TrainingSessionElement,
};

fn set(exercise_id: u32, reps: Option<u32>) -> TrainingSessionElement {
    TrainingSessionElement::ExerciseSet {
        exercise_id,
        reps,
        time: None,
        weight: None,
        rpe: None,
        target_reps: Some(10),
        target_time: None,
        target_weight: None,
        target_rpe: None,
        automatic: false,
    }
}

fn hold(exercise_id: u32, seconds: u32, automatic: bool) -> TrainingSessionElement {
    TrainingSessionElement::ExerciseSet {
        exercise_id,
        reps: None,
        time: None,
        weight: None,
        rpe: None,
        target_reps: None,
        target_time: Some(seconds),
        target_weight: None,
        target_rpe: None,
        automatic,
    }
}

fn rest(target_time: Option<u32>, automatic: bool) -> TrainingSessionElement {
    TrainingSessionElement::Rest { target_time, automatic }
}

fn session(
    id: u32,
    routine_id: Option<u32>,
    days: i32,
    elements: Vec<TrainingSessionElement>,
) -> TrainingSession {
    TrainingSession { id, routine_id, date: Date { days }, notes: None, elements }
}

fn data(training_sessions: Vec<TrainingSession>) -> DataModel {
    DataModel {
        training_sessions,
        exercises: vec![
            Exercise { id: 7, name: String::from("Squat") },
            Exercise { id: 8, name: String::from("Plank") },
        ],
        settings: Settings { beep_volume: 80, automatic_metronome: false },
        ongoing_training_session: None,
    }
}

fn rows(section: &FormSection) -> usize {
    match section {
        FormSection::ExerciseSet { exercises } => exercises.len(),
        FormSection::Rest { .. } => panic!("a rest has no rows"),
    }
}

#[test]
fn without_a_session_the_form_is_blank() {
    let form = init_form(None, &data(vec![]));
    assert_eq!(form.notes, "");
    assert!(!form.notes_changed);
    assert!(form.sections.is_empty());
    assert!(!form.changed());
    assert!(form.valid());
    assert!(form.to_elements().is_empty());
    let blank = Form::new();
    assert!(blank.sections.is_empty());
}

#[test]
fn the_earlier_session_of_the_routine_gives_the_previous_values() {
    let earlier = session(1, Some(3), 100, vec![set(7, Some(5))]);
    let later = session(2, Some(3), 107, vec![set(8, None), set(7, None), set(7, None)]);
    let model = data(vec![earlier, later]);
    let form = init_form(Some(&model.training_sessions[1]), &model);
    assert_eq!(form.sections.len(), 1);
    match &form.sections[0] {
        FormSection::ExerciseSet { exercises } => {
            assert_eq!(exercises.len(), 3);
            assert_eq!(exercises[0].exercise_id, 8);
            assert_eq!(exercises[0].prev_reps, None);
            assert_eq!(exercises[1].exercise_id, 7);
            assert_eq!(exercises[1].prev_reps, Some(5));
            assert_eq!(exercises[2].exercise_id, 7);
            assert_eq!(exercises[2].prev_reps, None);
        },
        FormSection::Rest { .. } => panic!("a section of sets"),
    }
}

#[test]
fn sets_are_matched_by_their_number_within_the_exercise() {
    let mut first = set(7, Some(5));
    if let TrainingSessionElement::ExerciseSet { weight, rpe, time, .. } = &mut first {
        *weight = Some(Decimal { tenths: 725 });
        *rpe = Some(Decimal { tenths: 80 });
        *time = Some(4);
    }
    let earlier = session(
        1,
        None,
        100,
        vec![first, rest(Some(60), true), set(8, Some(30)), set(7, Some(4)), set(7, Some(3))],
    );
    let later = session(
        2,
        None,
        100,
        vec![set(7, None), set(7, None), set(8, None), set(7, None), set(7, None), set(8, None)],
    );
    let model = data(vec![later, earlier]);
    let form = init_form(Some(&model.training_sessions[0]), &model);
    match &form.sections[0] {
        FormSection::ExerciseSet { exercises } => {
            let previous: Vec<Option<u32>> = exercises.iter().map(|e| e.prev_reps).collect();
            assert_eq!(previous, vec![Some(5), Some(4), Some(30), Some(3), None, None]);
            assert_eq!(exercises[0].prev_weight, Some(Decimal { tenths: 725 }));
            assert_eq!(exercises[0].prev_rpe, Some(Decimal { tenths: 80 }));
            assert_eq!(exercises[0].prev_time, Some(4));
            assert_eq!(exercises[1].prev_weight, None);
        },
        FormSection::Rest { .. } => panic!("a section of sets"),
    }
}

#[test]
fn the_previous_session_is_the_latest_that_qualifies() {
    let sessions = vec![
        session(1, Some(3), 90, vec![]),
        session(2, Some(3), 95, vec![]),
        session(3, Some(4), 99, vec![]),
        session(4, Some(3), 95, vec![]),
        session(5, Some(3), 101, vec![]),
        session(6, None, 98, vec![]),
    ];
    let current = session(9, Some(3), 100, vec![]);
    assert_eq!(previous_session(&sessions, &current), Some(3));
    let free = session(9, None, 100, vec![]);
    assert_eq!(previous_session(&sessions, &free), Some(2));
    let first = session(9, Some(3), 80, vec![]);
    assert_eq!(previous_session(&sessions, &first), None);
    let same_day = session(2, Some(3), 95, vec![]);
    assert_eq!(previous_session(&sessions, &same_day), Some(3));
    let itself = session(4, Some(3), 95, vec![]);
    assert_eq!(previous_session(&sessions, &itself), Some(1));
    assert_eq!(previous_session(&vec![], &current), None);
}

#[test]
fn previous_sets_are_the_sets_of_the_previous_session() {
    let earlier = session(1, None, 100, vec![set(7, Some(5)), rest(None, false), set(8, Some(1))]);
    let later = session(2, None, 101, vec![set(7, None)]);
    let model = data(vec![earlier, later]);
    let sets = previous_sets(Some(&model.training_sessions[1]), &model);
    assert_eq!(sets.len(), 2);
    assert!(matches!(sets[0], TrainingSessionElement::ExerciseSet { exercise_id: 7, reps: Some(5), .. }));
    assert!(matches!(sets[1], TrainingSessionElement::ExerciseSet { exercise_id: 8, reps: Some(1), .. }));
    assert!(previous_sets(Some(&model.training_sessions[0]), &model).is_empty());
    assert!(previous_sets(None, &model).is_empty());
}

#[test]
fn sets_of_an_exercise_are_counted_and_found_by_number() {
    let elements = vec![set(7, Some(1)), rest(None, false), set(8, Some(2)), set(7, Some(3))];
    assert_eq!(count_sets_before(&elements, 7, 0), 0);
    assert_eq!(count_sets_before(&elements, 7, 1), 1);
    assert_eq!(count_sets_before(&elements, 7, 3), 1);
    assert_eq!(count_sets_before(&elements, 7, 4), 2);
    assert_eq!(count_sets_before(&elements, 9, 4), 0);
    assert!(matches!(
        find_nth_set(&elements, 7, 0),
        Some(TrainingSessionElement::ExerciseSet { reps: Some(1), .. })
    ));
    assert!(matches!(
        find_nth_set(&elements, 7, 1),
        Some(TrainingSessionElement::ExerciseSet { reps: Some(3), .. })
    ));
    assert!(find_nth_set(&elements, 7, 2).is_none());
    assert!(matches!(
        find_nth_set(&elements, 8, 0),
        Some(TrainingSessionElement::ExerciseSet { reps: Some(2), .. })
    ));
    assert!(find_nth_set(&elements, 9, 0).is_none());
}

#[test]
fn elements_are_grouped_into_sections() {
    let elements = vec![
        set(7, None),
        set(8, None),
        hold(8, 30, true),
        set(7, None),
        rest(Some(60), true),
        rest(None, false),
        hold(8, 20, false),
        hold(8, 10, false),
        set(7, None),
        set(7, None),
    ];
    let current = session(2, None, 100, elements);
    let model = data(vec![current]);
    let form = init_form(Some(&model.training_sessions[0]), &model);
    assert_eq!(form.sections.len(), 8);
    assert_eq!(rows(&form.sections[0]), 2);
    assert_eq!(rows(&form.sections[1]), 1);
    assert_eq!(rows(&form.sections[2]), 1);
    assert!(matches!(form.sections[3], FormSection::Rest { target_time: 60, automatic: true }));
    assert!(matches!(form.sections[4], FormSection::Rest { target_time: 0, automatic: false }));
    assert_eq!(rows(&form.sections[5]), 1);
    assert_eq!(rows(&form.sections[6]), 1);
    assert_eq!(rows(&form.sections[7]), 2);
    for section in &form.sections {
        if let FormSection::ExerciseSet { exercises } = section {
            for (place, exercise) in exercises.iter().enumerate() {
                assert_eq!(exercise.position, place);
            }
        }
    }
    match &form.sections[1] {
        FormSection::ExerciseSet { exercises } => {
            assert_eq!(exercises[0].target_time, Some(30));
            assert!(exercises[0].automatic);
            assert_eq!(exercises[0].exercise_name, "Plank");
        },
        FormSection::Rest { .. } => panic!("a section of sets"),
    }
}

#[test]
fn rows_show_what_is_recorded() {
    let element = TrainingSessionElement::ExerciseSet {
        exercise_id: 9,
        reps: Some(12),
        time: Some(3),
        weight: Some(Decimal { tenths: 725 }),
        rpe: Some(Decimal { tenths: 85 }),
        target_reps: Some(10),
        target_time: Some(4),
        target_weight: Some(Decimal { tenths: 700 }),
        target_rpe: Some(Decimal { tenths: 80 }),
        automatic: true,
    };
    let mut current = session(2, None, 100, vec![element]);
    current.notes = Some(String::from("went well"));
    let model = data(vec![current]);
    let form = init_form(Some(&model.training_sessions[0]), &model);
    assert_eq!(form.notes, "went well");
    assert!(!form.notes_changed);
    assert!(!form.changed());
    assert!(form.valid());
    match &form.sections[0] {
        FormSection::ExerciseSet { exercises } => {
            let row = &exercises[0];
            assert_eq!(row.exercise_name, "Exercise#9");
            assert_eq!(row.reps.input, "12");
            assert_eq!(row.reps.parsed, Some(12));
            assert_eq!(row.time.input, "3");
            assert_eq!(row.weight.input, "72.5");
            assert_eq!(row.weight.parsed, Some(Decimal { tenths: 725 }));
            assert_eq!(row.rpe.input, "8.5");
            assert!(row.reps.valid && !row.reps.changed);
            assert_eq!(row.target_reps, Some(10));
            assert_eq!(row.target_time, Some(4));
            assert_eq!(row.target_weight, Some(Decimal { tenths: 700 }));
            assert_eq!(row.target_rpe, Some(Decimal { tenths: 80 }));
            assert!(row.automatic);
            assert!(row.valid());
            assert!(!row.changed());
        },
        FormSection::Rest { .. } => panic!("a section of sets"),
    }
}

#[test]
fn an_untouched_form_stores_the_elements_it_was_built_from() {
    let elements = vec![
        set(7, Some(3)),
        hold(8, 30, true),
        rest(Some(60), true),
        rest(Some(0), true),
        rest(None, false),
        set(7, None),
    ];
    let current = session(2, None, 100, elements);
    let model = data(vec![current]);
    let form = init_form(Some(&model.training_sessions[0]), &model);
    let stored = form.to_elements();
    assert_eq!(stored.len(), 6);
    assert!(matches!(
        stored[0],
        TrainingSessionElement::ExerciseSet { exercise_id: 7, reps: Some(3), target_reps: Some(10), .. }
    ));
    assert!(matches!(
        stored[1],
        TrainingSessionElement::ExerciseSet {
            exercise_id: 8,
            target_time: Some(30),
            target_reps: None,
            automatic: true,
            ..
        }
    ));
    assert!(matches!(stored[2], TrainingSessionElement::Rest { target_time: Some(60), automatic: true }));
    assert!(matches!(stored[3], TrainingSessionElement::Rest { target_time: None, automatic: true }));
    assert!(matches!(stored[4], TrainingSessionElement::Rest { target_time: None, automatic: false }));
    assert!(matches!(stored[5], TrainingSessionElement::ExerciseSet { exercise_id: 7, reps: None, .. }));
}

#[test]
fn targets_and_previous_values_are_filled_in() {
    let earlier = session(1, None, 90, vec![set(7, Some(5))]);
    let later = session(2, None, 100, vec![set(7, Some(10))]);
    let model = data(vec![earlier, later]);
    let mut form = init_form(Some(&model.training_sessions[1]), &model);
    if let FormSection::ExerciseSet { exercises } = &mut form.sections[0] {
        exercises[0].enter_target_values();
        assert_eq!(exercises[0].reps.parsed, Some(10));
        assert!(!exercises[0].changed());
        exercises[0].enter_previous_values();
        assert_eq!(exercises[0].reps.parsed, Some(5));
        assert_eq!(exercises[0].reps.input, "5");
        assert!(exercises[0].reps.changed);
        assert!(!exercises[0].time.changed);
        assert!(exercises[0].changed());
        assert!(matches!(
            exercises[0].to_element(),
            TrainingSessionElement::ExerciseSet { exercise_id: 7, reps: Some(5), target_reps: Some(10), .. }
        ));
    }
    assert!(form.changed());
    assert!(form.valid());
}

#[test]
fn exercises_and_sessions_are_found_by_id() {
    let model = data(vec![session(4, None, 1, vec![]), session(2, None, 2, vec![]), session(4, None, 3, vec![])]);
    assert_eq!(find_session(&model.training_sessions, 4), Some(0));
    assert_eq!(find_session(&model.training_sessions, 2), Some(1));
    assert_eq!(find_session(&model.training_sessions, 3), None);
    assert_eq!(exercise_name(&model.exercises, 7), "Squat");
    assert_eq!(exercise_name(&model.exercises, 8), "Plank");
    assert_eq!(exercise_name(&model.exercises, 123), "Exercise#123");
}

#[test]
fn a_set_is_written_with_signs_between_its_values() {
    let weight = Some(Decimal { tenths: 725 });
    let rpe = Some(Decimal { tenths: 80 });
    assert_eq!(format_set(Some(5), Some(30), weight, rpe), "5 × 30 s × 72.5 kg @ 8");
    assert_eq!(format_set(Some(5), None, weight, None), "5 × 72.5 kg");
    assert_eq!(format_set(None, Some(30), None, None), "30 s");
    assert_eq!(format_set(Some(5), None, None, Some(Decimal { tenths: 85 })), "5 @ 8.5");
    assert_eq!(format_set(None, None, None, rpe), " @ 8");
    assert_eq!(format_set(None, None, None, None), "");
    assert_eq!(format_set(None, Some(4), Some(Decimal { tenths: 0 }), None), "4 s × 0 kg");
}

#[test]
fn a_section_of_sets_is_announced_with_its_first_exercise() {
    let earlier = session(1, None, 90, vec![set(7, Some(5))]);
    let later = session(2, None, 100, vec![set(7, None), set(8, None)]);
    let model = data(vec![earlier, later]);
    let form = init_form(Some(&model.training_sessions[1]), &model);
    let notification = section_notification(&form.sections[0]).expect("an announcement");
    assert_eq!(notification.title, "Squat");
    assert_eq!(notification.body.as_deref(), Some("Previously:\n5\nTarget:\n10\n"));

    let first = init_form(Some(&model.training_sessions[0]), &model);
    let notification = section_notification(&first.sections[0]).expect("an announcement");
    assert_eq!(notification.body.as_deref(), Some("Target:\n10\n"));

    let bare = FormSection::ExerciseSet { exercises: vec![] };
    assert!(section_notification(&bare).is_none());
}

#[test]
fn a_set_without_values_is_announced_with_an_empty_body() {
    let mut element = set(7, None);
    if let TrainingSessionElement::ExerciseSet { target_reps, .. } = &mut element {
        *target_reps = None;
    }
    let model = data(vec![session(2, None, 100, vec![element])]);
    let form = init_form(Some(&model.training_sessions[0]), &model);
    let notification = section_notification(&form.sections[0]).expect("an announcement");
    assert_eq!(notification.body.as_deref(), Some(""));
}

#[test]
fn a_rest_is_announced_with_its_duration() {
    let timed = FormSection::Rest { target_time: 90, automatic: true };
    let notification = section_notification(&timed).expect("an announcement");
    assert_eq!(notification.title, "Rest");
    assert_eq!(notification.body.as_deref(), Some("90 s"));
    let open = FormSection::Rest { target_time: 0, automatic: false };
    let notification = section_notification(&open).expect("an announcement");
    assert_eq!(notification.title, "Rest");
    assert_eq!(notification.body, None);
}

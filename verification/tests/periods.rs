use workout_guide::calendar::{date_from_text, date_to_text};
use workout_guide::page::period::{
    can_take, init, update, Command, Dialog, Interval, Model, Msg,
};
use workout_guide::session::{Date, Event, Period, StoreMsg};

fn day(text: &str) -> Date {
    date_from_text(text).expect("a day")
}

fn interval() -> Interval {
    Interval { first: day("2024-01-01"), last: day("2024-03-01") }
}

fn periods() -> Vec<Period> {
    vec![
        Period { date: day("2024-02-01"), intensity: 2 },
        Period { date: day("2024-02-02"), intensity: 3 },
    ]
}

fn enter() -> Model {
    init(None, interval()).0
}

#[test]
fn days_are_read_by_the_calendar() {
    assert_eq!(date_from_text("1970-01-01"), Some(Date { days: 719_163 }));
    assert_eq!(date_from_text("2024-02-29"), Some(Date { days: 738_945 }));
    assert_eq!(date_from_text("2023-02-29"), None);
    assert_eq!(date_from_text("2024-13-01"), None);
    assert_eq!(date_from_text("yesterday"), None);
    assert_eq!(date_from_text(""), None);
    assert!(day("2024-02-01").days + 1 == day("2024-02-02").days);
    assert!(day("2023-12-31").days + 1 == day("2024-01-01").days);
}

#[test]
fn days_are_written_by_the_calendar() {
    assert_eq!(date_to_text(Date { days: 719_163 }), "1970-01-01");
    assert_eq!(date_to_text(Date { days: 738_945 }), "2024-02-29");
    assert_eq!(date_to_text(Date { days: i32::MAX }), "");
    for text in ["2024-02-29", "1999-12-31", "2000-01-01"] {
        assert_eq!(date_to_text(day(text)), text);
    }
}

#[test]
fn entering_the_calendar() {
    let (model, commands) = init(None, interval());
    assert!(commands.is_empty());
    assert!(matches!(model.dialog, Dialog::Hidden));
    assert!(!model.loading);
    assert_eq!(model.interval.first, day("2024-01-01"));
    let (_, commands) = init(Some("add"), interval());
    assert_eq!(commands.len(), 1);
    assert!(matches!(commands[0], Command::SendMsg(Msg::ShowAddPeriodDialog)));
    let (_, commands) = init(Some("edit"), interval());
    assert!(commands.is_empty());
}

#[test]
fn adding_a_day() {
    let periods = periods();
    let today = day("2024-02-03");
    let mut model = enter();
    assert!(update(Msg::ShowAddPeriodDialog, &mut model, &periods, today).is_empty());
    match &model.dialog {
        Dialog::AddPeriod(form) => {
            assert_eq!(form.date_input, "2024-02-03");
            assert_eq!(form.date, Some(today));
            assert_eq!(form.intensity_input, "");
            assert_eq!(form.intensity, None);
        },
        _ => panic!("the dialog to add a day"),
    }
    update(Msg::DateChanged(String::from("2024-02-02")), &mut model, &periods, today);
    match &model.dialog {
        Dialog::AddPeriod(form) => {
            assert_eq!(form.date_input, "2024-02-02");
            assert_eq!(form.date, None);
        },
        _ => panic!("the dialog to add a day"),
    }
    update(Msg::DateChanged(String::from("2024-02-3x")), &mut model, &periods, today);
    assert!(matches!(&model.dialog, Dialog::AddPeriod(form) if form.date.is_none()));
    update(Msg::DateChanged(String::from("2024-02-04")), &mut model, &periods, today);
    assert!(matches!(&model.dialog, Dialog::AddPeriod(form) if form.date == Some(day("2024-02-04"))));

    for (text, intensity) in [("0", None), ("256", None), ("x", None), ("", None), ("255", Some(255u8)), ("3", Some(3))] {
        update(Msg::IntensityChanged(String::from(text)), &mut model, &periods, today);
        match &model.dialog {
            Dialog::AddPeriod(form) => {
                assert_eq!(form.intensity_input, text);
                assert_eq!(form.intensity, intensity);
                assert_eq!(form.date_input, "2024-02-04");
            },
            _ => panic!("the dialog to add a day"),
        }
    }
    let commands = update(Msg::SavePeriod, &mut model, &periods, today);
    assert!(model.loading);
    assert_eq!(commands.len(), 1);
    match &commands[0] {
        Command::Notify(StoreMsg::CreatePeriod(period)) => {
            assert_eq!(period.date, day("2024-02-04"));
            assert_eq!(period.intensity, 3);
        },
        _ => panic!("the store is told of a new day"),
    }
    let commands = update(Msg::DataEvent(Event::PeriodCreatedOk), &mut model, &periods, today);
    assert!(!model.loading);
    assert_eq!(commands.len(), 2);
    assert!(matches!(commands[0], Command::SkipRender));
    assert!(matches!(commands[1], Command::SendMsg(Msg::ClosePeriodDialog)));
    let commands = update(Msg::ClosePeriodDialog, &mut model, &periods, today);
    assert!(matches!(model.dialog, Dialog::Hidden));
    assert_eq!(commands.len(), 1);
    assert!(matches!(commands[0], Command::ReplaceUrl));
}

#[test]
fn today_cannot_be_added_twice() {
    let periods = periods();
    let mut model = enter();
    update(Msg::ShowAddPeriodDialog, &mut model, &periods, day("2024-02-01"));
    match &model.dialog {
        Dialog::AddPeriod(form) => {
            assert_eq!(form.date_input, "2024-02-01");
            assert_eq!(form.date, None);
        },
        _ => panic!("the dialog to add a day"),
    }
}

#[test]
fn editing_and_deleting_a_day() {
    let periods = periods();
    let today = day("2024-02-03");
    let mut model = enter();
    update(Msg::ShowEditPeriodDialog(1), &mut model, &periods, today);
    match &model.dialog {
        Dialog::EditPeriod(form) => {
            assert_eq!(form.date_input, "2024-02-02");
            assert_eq!(form.date, Some(day("2024-02-02")));
            assert_eq!(form.intensity_input, "3");
            assert_eq!(form.intensity, Some(3));
        },
        _ => panic!("the dialog to edit a day"),
    }
    update(Msg::IntensityChanged(String::from("4")), &mut model, &periods, today);
    let commands = update(Msg::SavePeriod, &mut model, &periods, today);
    match &commands[0] {
        Command::Notify(StoreMsg::ReplacePeriod(period)) => {
            assert_eq!(period.date, day("2024-02-02"));
            assert_eq!(period.intensity, 4);
        },
        _ => panic!("the store is told of the change"),
    }
    update(Msg::DataEvent(Event::DataChanged), &mut model, &periods, today);
    assert!(!model.loading);
    assert!(matches!(model.dialog, Dialog::EditPeriod(_)));

    update(Msg::ShowDeletePeriodDialog(day("2024-02-01")), &mut model, &periods, today);
    assert!(matches!(model.dialog, Dialog::DeletePeriod(date) if date == day("2024-02-01")));
    let commands = update(Msg::DeletePeriod(day("2024-02-01")), &mut model, &periods, today);
    assert!(model.loading);
    assert!(matches!(
        commands[0],
        Command::Notify(StoreMsg::DeletePeriod(date)) if date == day("2024-02-01")
    ));
    let commands = update(Msg::DataEvent(Event::PeriodDeletedOk), &mut model, &periods, today);
    assert_eq!(commands.len(), 2);
}

#[test]
fn the_interval_shown_can_be_changed() {
    let mut model = enter();
    let commands = update(
        Msg::ChangeInterval(day("2023-01-01"), day("2023-12-31")),
        &mut model,
        &periods(),
        day("2024-02-03"),
    );
    assert!(commands.is_empty());
    assert_eq!(model.interval.first, day("2023-01-01"));
    assert_eq!(model.interval.last, day("2023-12-31"));
}

#[test]
fn messages_are_taken_only_where_they_fit() {
    let periods = periods();
    let today = day("2024-02-03");
    let mut model = enter();
    assert!(can_take(&model, &Msg::ShowAddPeriodDialog, &periods));
    assert!(can_take(&model, &Msg::ShowEditPeriodDialog(1), &periods));
    assert!(!can_take(&model, &Msg::ShowEditPeriodDialog(2), &periods));
    assert!(!can_take(&model, &Msg::DateChanged(String::new()), &periods));
    assert!(!can_take(&model, &Msg::IntensityChanged(String::new()), &periods));
    assert!(!can_take(&model, &Msg::SavePeriod, &periods));
    assert!(can_take(&model, &Msg::ClosePeriodDialog, &periods));
    assert!(can_take(&model, &Msg::DataEvent(Event::Other), &periods));

    update(Msg::ShowAddPeriodDialog, &mut model, &periods, today);
    assert!(can_take(&model, &Msg::DateChanged(String::new()), &periods));
    assert!(can_take(&model, &Msg::IntensityChanged(String::new()), &periods));
    assert!(!can_take(&model, &Msg::SavePeriod, &periods));
    update(Msg::IntensityChanged(String::from("2")), &mut model, &periods, today);
    assert!(can_take(&model, &Msg::SavePeriod, &periods));
    update(Msg::DateChanged(String::from("soon")), &mut model, &periods, today);
    assert!(!can_take(&model, &Msg::SavePeriod, &periods));

    update(Msg::ShowEditPeriodDialog(0), &mut model, &periods, today);
    assert!(!can_take(&model, &Msg::DateChanged(String::new()), &periods));
    assert!(can_take(&model, &Msg::IntensityChanged(String::new()), &periods));
    assert!(can_take(&model, &Msg::SavePeriod, &periods));

    update(Msg::ShowDeletePeriodDialog(today), &mut model, &periods, today);
    assert!(!can_take(&model, &Msg::IntensityChanged(String::new()), &periods));
    assert!(!can_take(&model, &Msg::SavePeriod, &periods));
    assert!(can_take(&model, &Msg::DeletePeriod(today), &periods));
}

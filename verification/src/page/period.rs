//! The page of the period calendar: the dialog in which a day is added,
//! edited or deleted, and the interval that is shown.

use vstd::prelude::*;
use vstd::string::*;
use crate::calendar::{date_from_text, date_of_text, date_to_text, text_of_days};
use crate::session::{Date, Event, Period, StoreMsg, StoreMsgView};
use crate::text::{nat_text, parse_u32, render_u32, u32_of_text};

verus! {

/// The days shown, from the first to the last.
#[derive(Clone, Copy, Debug)]
pub struct Interval {
    pub first: Date,
    pub last: Date,
}

/// The two fields of the dialog, each with its text and what the text was
/// read as.
pub struct Form {
    pub date_input: String,
    pub date: Option<Date>,
    pub intensity_input: String,
    pub intensity: Option<u8>,
}

/// What a `Form` holds.
#[verifier::ext_equal]
pub struct FormView {
    pub date_input: Seq<char>,
    pub date: Option<Date>,
    pub intensity_input: Seq<char>,
    pub intensity: Option<u8>,
}

impl View for Form {
    type V = FormView;

    open spec fn view(&self) -> FormView {
        FormView {
            date_input: self.date_input@,
            date: self.date,
            intensity_input: self.intensity_input@,
            intensity: self.intensity,
        }
    }
}

pub enum Dialog {
    Hidden,
    AddPeriod(Form),
    EditPeriod(Form),
    DeletePeriod(Date),
}

/// What a `Dialog` holds.
#[verifier::ext_equal]
pub enum DialogView {
    Hidden,
    AddPeriod(FormView),
    EditPeriod(FormView),
    DeletePeriod(Date),
}

impl View for Dialog {
    type V = DialogView;

    open spec fn view(&self) -> DialogView {
        match self {
            Dialog::Hidden => DialogView::Hidden,
            Dialog::AddPeriod(form) => DialogView::AddPeriod(form@),
            Dialog::EditPeriod(form) => DialogView::EditPeriod(form@),
            Dialog::DeletePeriod(date) => DialogView::DeletePeriod(*date),
        }
    }
}

/// The state of the page.
pub struct Model {
    pub interval: Interval,
    pub dialog: Dialog,
    pub loading: bool,
}

/// What a `Model` holds.
#[verifier::ext_equal]
pub struct ModelView {
    pub interval: Interval,
    pub dialog: DialogView,
    pub loading: bool,
}

impl View for Model {
    type V = ModelView;

    open spec fn view(&self) -> ModelView {
        ModelView { interval: self.interval, dialog: self.dialog@, loading: self.loading }
    }
}

/// What the page is told.
pub enum Msg {
    ShowAddPeriodDialog,
    ShowEditPeriodDialog(usize),
    ShowDeletePeriodDialog(Date),
    ClosePeriodDialog,
    DateChanged(String),
    IntensityChanged(String),
    SavePeriod,
    DeletePeriod(Date),
    DataEvent(Event),
    ChangeInterval(Date, Date),
}

/// What a `Msg` holds.
pub enum MsgView {
    ShowAddPeriodDialog,
    ShowEditPeriodDialog(usize),
    ShowDeletePeriodDialog(Date),
    ClosePeriodDialog,
    DateChanged(Seq<char>),
    IntensityChanged(Seq<char>),
    SavePeriod,
    DeletePeriod(Date),
    DataEvent(Event),
    ChangeInterval(Date, Date),
}

impl View for Msg {
    type V = MsgView;

    open spec fn view(&self) -> MsgView {
        match *self {
            Msg::ShowAddPeriodDialog => MsgView::ShowAddPeriodDialog,
            Msg::ShowEditPeriodDialog(index) => MsgView::ShowEditPeriodDialog(index),
            Msg::ShowDeletePeriodDialog(date) => MsgView::ShowDeletePeriodDialog(date),
            Msg::ClosePeriodDialog => MsgView::ClosePeriodDialog,
            Msg::DateChanged(text) => MsgView::DateChanged(text@),
            Msg::IntensityChanged(text) => MsgView::IntensityChanged(text@),
            Msg::SavePeriod => MsgView::SavePeriod,
            Msg::DeletePeriod(date) => MsgView::DeletePeriod(date),
            Msg::DataEvent(event) => MsgView::DataEvent(event),
            Msg::ChangeInterval(first, last) => MsgView::ChangeInterval(first, last),
        }
    }
}

/// What a transition asks of whoever runs the page.
pub enum Command {
    /// Hand this message to the page after the ones already waiting.
    SendMsg(Msg),
    /// Tell the store.
    Notify(StoreMsg),
    /// Put the address of the calendar in place of the current one.
    ReplaceUrl,
    /// Do not render after this transition.
    SkipRender,
}

/// What a `Command` holds.
pub enum CommandView {
    SendMsg(MsgView),
    Notify(StoreMsgView),
    ReplaceUrl,
    SkipRender,
}

impl View for Command {
    type V = CommandView;

    open spec fn view(&self) -> CommandView {
        match *self {
            Command::SendMsg(msg) => CommandView::SendMsg(msg@),
            Command::Notify(msg) => CommandView::Notify(msg@),
            Command::ReplaceUrl => CommandView::ReplaceUrl,
            Command::SkipRender => CommandView::SkipRender,
        }
    }
}

/// The commands as what they hold.
pub open spec fn command_views(commands: Seq<Command>) -> Seq<CommandView> {
    Seq::new(commands.len(), |i: int| commands[i]@)
}

/// Where a transition leads: the next state and what is asked for.
#[verifier::ext_equal]
pub struct Outcome {
    pub model: ModelView,
    pub commands: Seq<CommandView>,
}

/// Whether none of the days of a period falls on `date`.
pub open spec fn is_free(periods: Seq<Period>, date: Date) -> bool {
    forall|i: int| 0 <= i < periods.len() ==> (#[trigger] periods[i]).date != date
}

/// The day that a text names, if it names one that is still free.
pub open spec fn free_date(periods: Seq<Period>, text: Seq<char>) -> Option<Date> {
    match date_of_text(text) {
        Some(date) => if is_free(periods, date) {
            Some(date)
        } else {
            None
        },
        None => None,
    }
}

/// The intensity that a text denotes: a number from one up to the largest
/// that fits in a byte.
pub open spec fn intensity_of_text(text: Seq<char>) -> Option<u8> {
    match u32_of_text(text) {
        Some(n) => if 0 < n <= u8::MAX {
            Some(n as u8)
        } else {
            None
        },
        None => None,
    }
}

/// The form that the dialog holds, where it holds one.
pub open spec fn form_in(dialog: DialogView) -> FormView {
    match dialog {
        DialogView::AddPeriod(form) => form,
        DialogView::EditPeriod(form) => form,
        _ => FormView {
            date_input: Seq::empty(),
            date: None,
            intensity_input: Seq::empty(),
            intensity: None,
        },
    }
}

/// The dialog with another form in it.
pub open spec fn with_form(dialog: DialogView, form: FormView) -> DialogView {
    match dialog {
        DialogView::AddPeriod(_) => DialogView::AddPeriod(form),
        DialogView::EditPeriod(_) => DialogView::EditPeriod(form),
        other => other,
    }
}

/// Whether a message can be taken in a state: a date is typed only where a
/// day is added, an intensity only where one is added or edited, a day is
/// saved only from a form that holds both values, and a day is edited only
/// where it exists.
pub open spec fn accepts(model: ModelView, msg: MsgView, periods: Seq<Period>) -> bool {
    match msg {
        MsgView::ShowEditPeriodDialog(index) => index < periods.len(),
        MsgView::DateChanged(_) => model.dialog is AddPeriod,
        MsgView::IntensityChanged(_) => model.dialog is AddPeriod || model.dialog is EditPeriod,
        MsgView::SavePeriod => (model.dialog is AddPeriod || model.dialog is EditPeriod)
            && form_in(model.dialog).date is Some && form_in(model.dialog).intensity is Some,
        _ => true,
    }
}

/// The transition of the page: where the message `msg` leads from the state
/// `model`, with the store holding `periods` and the day being `today`.
pub open spec fn step(model: ModelView, msg: MsgView, periods: Seq<Period>, today: Date) -> Outcome {
    match msg {
        MsgView::ShowAddPeriodDialog => Outcome {
            model: ModelView {
                dialog: DialogView::AddPeriod(
                    FormView {
                        date_input: text_of_days(today.days),
                        date: if is_free(periods, today) {
                            Some(today)
                        } else {
                            None
                        },
                        intensity_input: Seq::empty(),
                        intensity: None,
                    },
                ),
                ..model
            },
            commands: Seq::empty(),
        },
        MsgView::ShowEditPeriodDialog(index) => Outcome {
            model: ModelView {
                dialog: DialogView::EditPeriod(
                    FormView {
                        date_input: text_of_days(periods[index as int].date.days),
                        date: Some(periods[index as int].date),
                        intensity_input: nat_text(periods[index as int].intensity as nat),
                        intensity: Some(periods[index as int].intensity),
                    },
                ),
                ..model
            },
            commands: Seq::empty(),
        },
        MsgView::ShowDeletePeriodDialog(date) => Outcome {
            model: ModelView { dialog: DialogView::DeletePeriod(date), ..model },
            commands: Seq::empty(),
        },
        MsgView::ClosePeriodDialog => Outcome {
            model: ModelView { dialog: DialogView::Hidden, ..model },
            commands: seq![CommandView::ReplaceUrl],
        },
        MsgView::DateChanged(text) => Outcome {
            model: ModelView {
                dialog: with_form(
                    model.dialog,
                    FormView {
                        date_input: text,
                        date: free_date(periods, text),
                        ..form_in(model.dialog)
                    },
                ),
                ..model
            },
            commands: Seq::empty(),
        },
        MsgView::IntensityChanged(text) => Outcome {
            model: ModelView {
                dialog: with_form(
                    model.dialog,
                    FormView {
                        intensity_input: text,
                        intensity: intensity_of_text(text),
                        ..form_in(model.dialog)
                    },
                ),
                ..model
            },
            commands: Seq::empty(),
        },
        MsgView::SavePeriod => {
            let period = Period {
                date: form_in(model.dialog).date->0,
                intensity: form_in(model.dialog).intensity->0,
            };
            Outcome {
                model: ModelView { loading: true, ..model },
                commands: seq![
                    CommandView::Notify(
                        if model.dialog is AddPeriod {
                            StoreMsgView::CreatePeriod(period)
                        } else {
                            StoreMsgView::ReplacePeriod(period)
                        },
                    ),
                ],
            }
        },
        MsgView::DeletePeriod(date) => Outcome {
            model: ModelView { loading: true, ..model },
            commands: seq![CommandView::Notify(StoreMsgView::DeletePeriod(date))],
        },
        MsgView::DataEvent(event) => Outcome {
            model: ModelView { loading: false, ..model },
            commands: match event {
                Event::PeriodCreatedOk | Event::PeriodReplacedOk | Event::PeriodDeletedOk => seq![
                    CommandView::SkipRender,
                    CommandView::SendMsg(MsgView::ClosePeriodDialog),
                ],
                _ => Seq::empty(),
            },
        },
        MsgView::ChangeInterval(first, last) => Outcome {
            model: ModelView { interval: Interval { first, last }, ..model },
            commands: Seq::empty(),
        },
    }
}

/// The page as it is entered: nothing loads, no dialog shows, and where
/// the address asks to add a day, the dialog for that is asked for.
pub open spec fn initial(action: Option<Seq<char>>, interval: Interval) -> Outcome {
    Outcome {
        model: ModelView { interval, dialog: DialogView::Hidden, loading: false },
        commands: if action == Some("add"@) {
            seq![CommandView::SendMsg(MsgView::ShowAddPeriodDialog)]
        } else {
            Seq::empty()
        },
    }
}

/// A date that is saved was free when it was typed in: the form of a day
/// to add never holds a date that one of the periods has already.
pub proof fn lemma_typed_date_is_free(
    model: ModelView,
    text: Seq<char>,
    periods: Seq<Period>,
    today: Date,
)
    requires
        model.dialog is AddPeriod,
    ensures
        step(model, MsgView::DateChanged(text), periods, today).model.dialog is AddPeriod,
        form_in(step(model, MsgView::DateChanged(text), periods, today).model.dialog).date
            matches Some(date) ==> is_free(periods, date) && date_of_text(text) == Some(date),
        form_in(
            step(model, MsgView::DateChanged(text), periods, today).model.dialog,
        ).date_input == text,
{
}

fn free(periods: &Vec<Period>, date: Date) -> (free: bool)
    ensures
        free == is_free(periods@, date),
{
    let mut i: usize = 0;
    while i < periods.len()
        invariant
            i <= periods.len(),
            forall|j: int| 0 <= j < i ==> (#[trigger] periods@[j]).date != date,
        decreases periods.len() - i,
    {
        if periods[i].date.days == date.days {
            return false;
        }
        i = i + 1;
    }
    true
}

fn read_intensity(text: &str) -> (intensity: Option<u8>)
    ensures
        intensity == intensity_of_text(text@),
{
    match parse_u32(text) {
        Some(n) => if 0 < n && n <= 255 {
            Some(n as u8)
        } else {
            None
        },
        None => None,
    }
}

fn push(commands: &mut Vec<Command>, command: Command)
    ensures
        command_views(final(commands)@) == command_views(old(commands)@).push(command@),
{
    commands.push(command);
    assert(command_views(commands@) =~= command_views(old(commands)@).push(command@));
}

fn no_commands() -> (commands: Vec<Command>)
    ensures
        command_views(commands@) == Seq::<CommandView>::empty(),
{
    let commands: Vec<Command> = Vec::new();
    assert(command_views(commands@) =~= Seq::<CommandView>::empty());
    commands
}

fn one_command(command: Command) -> (commands: Vec<Command>)
    ensures
        command_views(commands@) == seq![command@],
{
    let mut commands = no_commands();
    push(&mut commands, command);
    assert(command_views(commands@) =~= seq![command@]);
    commands
}

fn names(text: Option<&str>, word: &str) -> (same: bool)
    ensures
        same == (text is Some && text->0@ == word@),
{
    match text {
        Some(given) => String::from_str(given) == String::from_str(word),
        None => false,
    }
}

/// Enters the page: builds the model and returns what is to be done first.
pub fn init(action: Option<&str>, interval: Interval) -> (entered: (Model, Vec<Command>))
    ensures
        entered.0@ == initial(
            match action {
                Some(text) => Some(text@),
                None => None,
            },
            interval,
        ).model,
        command_views(entered.1@) == initial(
            match action {
                Some(text) => Some(text@),
                None => None,
            },
            interval,
        ).commands,
{
    let commands = if names(action, "add") {
        one_command(Command::SendMsg(Msg::ShowAddPeriodDialog))
    } else {
        no_commands()
    };
    (Model { interval, dialog: Dialog::Hidden, loading: false }, commands)
}

fn set_date(model: &mut Model, text: String, periods: &Vec<Period>)
    requires
        old(model)@.dialog is AddPeriod,
    ensures
        forall|today: Date|
            final(model)@ == (#[trigger] step(
                old(model)@,
                MsgView::DateChanged(text@),
                periods@,
                today,
            )).model,
{
    let date = match date_from_text(text.as_str()) {
        Some(date) => if free(periods, date) {
            Some(date)
        } else {
            None
        },
        None => None,
    };
    match &mut model.dialog {
        Dialog::AddPeriod(form) => {
            form.date = date;
            form.date_input = text;
        },
        _ => {},
    }
    assert forall|today: Date|
        model@ == (#[trigger] step(
            old(model)@,
            MsgView::DateChanged(text@),
            periods@,
            today,
        )).model by {
        assert(model@ =~~= step(old(model)@, MsgView::DateChanged(text@), periods@, today).model);
    }
}

fn set_intensity(model: &mut Model, text: String)
    requires
        old(model)@.dialog is AddPeriod || old(model)@.dialog is EditPeriod,
    ensures
        forall|periods: Seq<Period>, today: Date|
            final(model)@ == (#[trigger] step(
                old(model)@,
                MsgView::IntensityChanged(text@),
                periods,
                today,
            )).model,
{
    let intensity = read_intensity(text.as_str());
    match &mut model.dialog {
        Dialog::AddPeriod(form) => {
            form.intensity = intensity;
            form.intensity_input = text;
        },
        Dialog::EditPeriod(form) => {
            form.intensity = intensity;
            form.intensity_input = text;
        },
        _ => {},
    }
    assert forall|periods: Seq<Period>, today: Date|
        model@ == (#[trigger] step(
            old(model)@,
            MsgView::IntensityChanged(text@),
            periods,
            today,
        )).model by {
        assert(model@ =~~= step(
            old(model)@,
            MsgView::IntensityChanged(text@),
            periods,
            today,
        ).model);
    }
}

fn save(model: &mut Model) -> (commands: Vec<Command>)
    requires
        accepts(old(model)@, MsgView::SavePeriod, Seq::empty()),
    ensures
        forall|periods: Seq<Period>, today: Date|
            final(model)@ == (#[trigger] step(old(model)@, MsgView::SavePeriod, periods, today)).model
                && command_views(commands@) == step(
                old(model)@,
                MsgView::SavePeriod,
                periods,
                today,
            ).commands,
{
    model.loading = true;
    let message = match &model.dialog {
        Dialog::AddPeriod(form) => match (form.date, form.intensity) {
            (Some(date), Some(intensity)) => Some(
                StoreMsg::CreatePeriod(Period { date, intensity }),
            ),
            _ => None,
        },
        Dialog::EditPeriod(form) => match (form.date, form.intensity) {
            (Some(date), Some(intensity)) => Some(
                StoreMsg::ReplacePeriod(Period { date, intensity }),
            ),
            _ => None,
        },
        _ => None,
    };
    match message {
        Some(told) => one_command(Command::Notify(told)),
        None => no_commands(),
    }
}

/// Tells whether a message can be taken in a state.
pub fn can_take(model: &Model, msg: &Msg, periods: &Vec<Period>) -> (ok: bool)
    ensures
        ok == accepts(model@, msg@, periods@),
{
    match msg {
        Msg::ShowEditPeriodDialog(index) => *index < periods.len(),
        Msg::DateChanged(_) => match &model.dialog {
            Dialog::AddPeriod(_) => true,
            _ => false,
        },
        Msg::IntensityChanged(_) => match &model.dialog {
            Dialog::AddPeriod(_) => true,
            Dialog::EditPeriod(_) => true,
            _ => false,
        },
        Msg::SavePeriod => match &model.dialog {
            Dialog::AddPeriod(form) => form.date.is_some() && form.intensity.is_some(),
            Dialog::EditPeriod(form) => form.date.is_some() && form.intensity.is_some(),
            _ => false,
        },
        _ => true,
    }
}

/// Takes the page from one state to the next on a message, and returns what
/// is to be done, in order.
pub fn update(msg: Msg, model: &mut Model, periods: &Vec<Period>, today: Date) -> (commands: Vec<
    Command,
>)
    requires
        accepts(old(model)@, msg@, periods@),
    ensures
        final(model)@ == step(old(model)@, msg@, periods@, today).model,
        command_views(commands@) == step(old(model)@, msg@, periods@, today).commands,
{
    let ghost before = model@;
    match msg {
        Msg::ShowAddPeriodDialog => {
            model.dialog = Dialog::AddPeriod(
                Form {
                    date_input: date_to_text(today),
                    date: if free(periods, today) {
                        Some(today)
                    } else {
                        None
                    },
                    intensity_input: String::new(),
                    intensity: None,
                },
            );
            no_commands()
        },
        Msg::ShowEditPeriodDialog(index) => {
            let period = periods[index];
            model.dialog = Dialog::EditPeriod(
                Form {
                    date_input: date_to_text(period.date),
                    date: Some(period.date),
                    intensity_input: render_u32(period.intensity as u32),
                    intensity: Some(period.intensity),
                },
            );
            no_commands()
        },
        Msg::ShowDeletePeriodDialog(date) => {
            model.dialog = Dialog::DeletePeriod(date);
            no_commands()
        },
        Msg::ClosePeriodDialog => {
            model.dialog = Dialog::Hidden;
            one_command(Command::ReplaceUrl)
        },
        Msg::DateChanged(text) => {
            set_date(model, text, periods);
            no_commands()
        },
        Msg::IntensityChanged(text) => {
            set_intensity(model, text);
            no_commands()
        },
        Msg::SavePeriod => save(model),
        Msg::DeletePeriod(date) => {
            model.loading = true;
            one_command(Command::Notify(StoreMsg::DeletePeriod(date)))
        },
        Msg::DataEvent(event) => {
            model.loading = false;
            match event {
                Event::PeriodCreatedOk | Event::PeriodReplacedOk | Event::PeriodDeletedOk => {
                    let mut commands = no_commands();
                    push(&mut commands, Command::SkipRender);
                    push(&mut commands, Command::SendMsg(Msg::ClosePeriodDialog));
                    assert(command_views(commands@) =~= seq![
                        CommandView::SkipRender,
                        CommandView::SendMsg(MsgView::ClosePeriodDialog),
                    ]);
                    commands
                },
                _ => no_commands(),
            }
        },
        Msg::ChangeInterval(first, last) => {
            model.interval = Interval { first, last };
            no_commands()
        },
    }
}

} // verus!

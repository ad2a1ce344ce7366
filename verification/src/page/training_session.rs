//! The page of one training session: its form, the guide through its
//! sections, and the dialog with stopwatch, metronome and timer.

pub mod laws;

use vstd::prelude::*;
use vstd::string::*;
use crate::page::training_session::laws::{
    lemma_at_section_keeps_form, lemma_step_keeps_wf, lemma_streams_keep_commands,
};
use crate::builder::{form_of, init_form};
use crate::clock::{AudioTime, Instant};
use crate::field::{reps_entered, rpe_entered, time_entered, weight_entered, InputField};
use crate::form::{row_views, ExerciseFormView, Form, FormSection, FormView, SectionView};
use crate::guide::{section_timer, Guide, GuideView};
use crate::metronome::{Beep, Metronome};
use crate::notification::{announcement, section_notification, Notification, NotificationView};
use crate::session::{
    find_session, session_views, session_with_id, DataModel, DataView, Event,
    OngoingTrainingSession, StoreMsg, StoreMsgView,
};
use crate::stopwatch::Stopwatch;
use crate::text::{nat_text, parse_u32, render_u32, u32_of_text};
use crate::timer::{Timer, TimerView};

verus! {

/// The readings of the two clocks at the moment of a transition. There is
/// no audio time where there is no audio backend.
#[derive(Clone, Copy, Debug)]
pub struct Clocks {
    pub now: Instant,
    pub audio: Option<AudioTime>,
}

/// A view of the page to go to: the session's guide, or its form for
/// editing.
#[derive(Clone, Copy, Debug)]
pub enum Route {
    Guide,
    Edit,
}

/// The dialog with the three instruments.
pub struct SMTDialog {
    pub visible: bool,
    pub stopwatch: Stopwatch,
    pub metronome: Metronome,
    pub timer: Timer,
}

/// What an `SMTDialog` holds.
#[verifier::ext_equal]
pub struct DialogView {
    pub visible: bool,
    pub stopwatch: Stopwatch,
    pub metronome: Metronome,
    pub timer: TimerView,
}

impl View for SMTDialog {
    type V = DialogView;

    open spec fn view(&self) -> DialogView {
        DialogView {
            visible: self.visible,
            stopwatch: self.stopwatch,
            metronome: self.metronome,
            timer: self.timer@,
        }
    }
}

/// The state of the page.
pub struct Model {
    pub training_session_id: u32,
    pub form: Form,
    pub guide: Option<Guide>,
    pub timer_dialog: SMTDialog,
    /// Whether the task that polls the dialog's instruments exists.
    pub timer_stream: bool,
    pub editing: bool,
    pub loading: bool,
}

/// What a `Model` holds.
#[verifier::ext_equal]
pub struct ModelView {
    pub training_session_id: u32,
    pub form: FormView,
    pub guide: Option<GuideView>,
    pub timer_dialog: DialogView,
    pub timer_stream: bool,
    pub editing: bool,
    pub loading: bool,
}

impl View for Model {
    type V = ModelView;

    open spec fn view(&self) -> ModelView {
        ModelView {
            training_session_id: self.training_session_id,
            form: self.form@,
            guide: match self.guide {
                Some(guide) => Some(guide@),
                None => None,
            },
            timer_dialog: self.timer_dialog@,
            timer_stream: self.timer_stream,
            editing: self.editing,
            loading: self.loading,
        }
    }
}

/// What the page is told.
pub enum Msg {
    RepsChanged(usize, usize, String),
    TimeChanged(usize, usize, String),
    WeightChanged(usize, usize, String),
    RPEChanged(usize, usize, String),
    NotesChanged(String),
    EnterTargetValues(usize, usize),
    EnterPreviousValues(usize, usize),
    StartGuidedTrainingSession,
    ContinueGuidedTrainingSession(OngoingTrainingSession),
    UpdateGuidedTrainingSession,
    StartPauseGuideTimer,
    GoToPreviousSection,
    GoToNextSection,
    ScrollToSection,
    EditTrainingSession,
    SaveTrainingSession,
    DataEvent(Event),
    ShowSMTDialog,
    CloseSMTDialog,
    UpdateSMTDialog,
    StartPauseStopwatch,
    ResetStopwatch,
    ToggleStopwatch,
    StartMetronome(u32),
    PauseMetronome,
    StartPauseMetronome,
    MetronomeIntervalChanged(String),
    MetronomeStressChanged(String),
    StartPauseTimer,
    ResetTimer,
    TimerTimeChanged(String),
}

/// What a `Msg` holds.
pub enum MsgView {
    RepsChanged(usize, usize, Seq<char>),
    TimeChanged(usize, usize, Seq<char>),
    WeightChanged(usize, usize, Seq<char>),
    RPEChanged(usize, usize, Seq<char>),
    NotesChanged(Seq<char>),
    EnterTargetValues(usize, usize),
    EnterPreviousValues(usize, usize),
    StartGuidedTrainingSession,
    ContinueGuidedTrainingSession(OngoingTrainingSession),
    UpdateGuidedTrainingSession,
    StartPauseGuideTimer,
    GoToPreviousSection,
    GoToNextSection,
    ScrollToSection,
    EditTrainingSession,
    SaveTrainingSession,
    DataEvent(Event),
    ShowSMTDialog,
    CloseSMTDialog,
    UpdateSMTDialog,
    StartPauseStopwatch,
    ResetStopwatch,
    ToggleStopwatch,
    StartMetronome(u32),
    PauseMetronome,
    StartPauseMetronome,
    MetronomeIntervalChanged(Seq<char>),
    MetronomeStressChanged(Seq<char>),
    StartPauseTimer,
    ResetTimer,
    TimerTimeChanged(Seq<char>),
}

impl View for Msg {
    type V = MsgView;

    open spec fn view(&self) -> MsgView {
        match *self {
            Msg::RepsChanged(s, e, input) => MsgView::RepsChanged(s, e, input@),
            Msg::TimeChanged(s, e, input) => MsgView::TimeChanged(s, e, input@),
            Msg::WeightChanged(s, e, input) => MsgView::WeightChanged(s, e, input@),
            Msg::RPEChanged(s, e, input) => MsgView::RPEChanged(s, e, input@),
            Msg::NotesChanged(notes) => MsgView::NotesChanged(notes@),
            Msg::EnterTargetValues(s, e) => MsgView::EnterTargetValues(s, e),
            Msg::EnterPreviousValues(s, e) => MsgView::EnterPreviousValues(s, e),
            Msg::StartGuidedTrainingSession => MsgView::StartGuidedTrainingSession,
            Msg::ContinueGuidedTrainingSession(record) => MsgView::ContinueGuidedTrainingSession(
                record,
            ),
            Msg::UpdateGuidedTrainingSession => MsgView::UpdateGuidedTrainingSession,
            Msg::StartPauseGuideTimer => MsgView::StartPauseGuideTimer,
            Msg::GoToPreviousSection => MsgView::GoToPreviousSection,
            Msg::GoToNextSection => MsgView::GoToNextSection,
            Msg::ScrollToSection => MsgView::ScrollToSection,
            Msg::EditTrainingSession => MsgView::EditTrainingSession,
            Msg::SaveTrainingSession => MsgView::SaveTrainingSession,
            Msg::DataEvent(event) => MsgView::DataEvent(event),
            Msg::ShowSMTDialog => MsgView::ShowSMTDialog,
            Msg::CloseSMTDialog => MsgView::CloseSMTDialog,
            Msg::UpdateSMTDialog => MsgView::UpdateSMTDialog,
            Msg::StartPauseStopwatch => MsgView::StartPauseStopwatch,
            Msg::ResetStopwatch => MsgView::ResetStopwatch,
            Msg::ToggleStopwatch => MsgView::ToggleStopwatch,
            Msg::StartMetronome(interval) => MsgView::StartMetronome(interval),
            Msg::PauseMetronome => MsgView::PauseMetronome,
            Msg::StartPauseMetronome => MsgView::StartPauseMetronome,
            Msg::MetronomeIntervalChanged(text) => MsgView::MetronomeIntervalChanged(text@),
            Msg::MetronomeStressChanged(text) => MsgView::MetronomeStressChanged(text@),
            Msg::StartPauseTimer => MsgView::StartPauseTimer,
            Msg::ResetTimer => MsgView::ResetTimer,
            Msg::TimerTimeChanged(text) => MsgView::TimerTimeChanged(text@),
        }
    }
}

/// What a transition asks of whoever runs the page.
pub enum Command {
    /// Hand this message to the page after the ones already waiting.
    SendMsg(Msg),
    /// Tell the store.
    Notify(StoreMsg),
    /// Show this notification in place of any other.
    ShowNotification(Notification),
    /// Take the notification down.
    CloseNotification,
    /// Schedule this tone.
    Beep(Beep),
    /// Make the task that polls the guide every second exist, or not.
    GuideStream(bool),
    /// Make the task that polls the dialog's instruments exist, or not.
    TimerStream(bool),
    /// Render before going on.
    ForceRender,
    /// Go to this view of the page.
    PushUrl(Route),
    /// Scroll the section with this index into view.
    ScrollIntoView(usize),
}

/// What a `Command` holds.
pub enum CommandView {
    SendMsg(MsgView),
    Notify(StoreMsgView),
    ShowNotification(NotificationView),
    CloseNotification,
    Beep(Beep),
    GuideStream(bool),
    TimerStream(bool),
    ForceRender,
    PushUrl(Route),
    ScrollIntoView(usize),
}

impl View for Command {
    type V = CommandView;

    open spec fn view(&self) -> CommandView {
        match *self {
            Command::SendMsg(msg) => CommandView::SendMsg(msg@),
            Command::Notify(msg) => CommandView::Notify(msg@),
            Command::ShowNotification(notification) => CommandView::ShowNotification(
                notification@,
            ),
            Command::CloseNotification => CommandView::CloseNotification,
            Command::Beep(beep) => CommandView::Beep(beep),
            Command::GuideStream(on) => CommandView::GuideStream(on),
            Command::TimerStream(on) => CommandView::TimerStream(on),
            Command::ForceRender => CommandView::ForceRender,
            Command::PushUrl(route) => CommandView::PushUrl(route),
            Command::ScrollIntoView(section_idx) => CommandView::ScrollIntoView(section_idx),
        }
    }
}

/// The commands as what they hold.
pub open spec fn command_views(commands: Seq<Command>) -> Seq<CommandView> {
    Seq::new(commands.len(), |i: int| commands[i]@)
}

/// Where a transition leads: the next state and what is asked for.
#[verifier::ext_equal]
pub struct Outcome {
    pub model: ModelView,
    pub commands: Seq<CommandView>,
}

/// The number, or one in place of zero.
pub open spec fn at_least_one(n: u32) -> u32 {
    if n == 0 {
        1
    } else {
        n
    }
}

/// The number that `text` denotes, or one where it denotes none or zero.
pub open spec fn count_or_one(text: Seq<char>) -> u32 {
    match u32_of_text(text) {
        Some(n) => at_least_one(n),
        None => 1,
    }
}

/// The messages that make the metronome follow a section, where it is to
/// follow at all: it starts at the time aimed at for sets that aim at
/// repetitions and a time, and pauses for a rest.
pub open spec fn metronome_commands(follow: bool, section: Option<SectionView>) -> Seq<
    CommandView,
> {
    if !follow {
        Seq::empty()
    } else {
        match section {
            Some(SectionView::ExerciseSet { exercises }) => if exercises.len() > 0
                && exercises[0].target_reps is Some && exercises[0].target_time is Some {
                seq![CommandView::SendMsg(MsgView::StartMetronome(exercises[0].target_time->0))]
            } else {
                Seq::empty()
            },
            Some(SectionView::Rest { .. }) => seq![CommandView::SendMsg(MsgView::PauseMetronome)],
            None => Seq::empty(),
        }
    }
}

/// The command that announces a section, if it announces anything.
pub open spec fn notification_commands(section: Option<SectionView>) -> Seq<CommandView> {
    match section {
        Some(s) => match announcement(s) {
            Some(n) => seq![CommandView::ShowNotification(n)],
            None => Seq::empty(),
        },
        None => Seq::empty(),
    }
}

/// The command that schedules a tone, if there is one.
pub open spec fn tone_commands(tone: Option<Beep>) -> Seq<CommandView> {
    match tone {
        Some(beep) => seq![CommandView::Beep(beep)],
        None => Seq::empty(),
    }
}

/// The commands that schedule these tones, in order.
pub open spec fn beep_commands(beeps: Seq<Beep>) -> Seq<CommandView> {
    Seq::new(beeps.len(), |i: int| CommandView::Beep(beeps[i]))
}

/// The command that tells the store where the guide is.
pub open spec fn persist_command(guide: GuideView) -> CommandView {
    CommandView::Notify(
        StoreMsgView::UpdateTrainingSession(guide.section_idx, guide.timer.state()),
    )
}

/// The message that saves the form, where it was touched.
pub open spec fn save_commands(form: FormView) -> Seq<CommandView> {
    if form.changed() {
        seq![CommandView::SendMsg(MsgView::SaveTrainingSession)]
    } else {
        Seq::empty()
    }
}

/// What a guide asks for when it is polled at a section: for sets that aim
/// at a time only, once no time is left, the time aimed at is entered as
/// done, unless it stands there already, and the guide goes on; an
/// automatic rest goes on once no time is left.
pub open spec fn advance_commands(
    guide: GuideView,
    section: Option<SectionView>,
    now: Instant,
) -> Seq<CommandView> {
    let due = guide.timer.remaining(now) is Some && guide.timer.remaining(now)->0 <= 0;
    match section {
        Some(SectionView::ExerciseSet { exercises }) => if exercises.len() > 0
            && exercises[0].target_time is Some && exercises[0].target_reps is None && due {
            if exercises[0].target_time != exercises[0].time.parsed {
                seq![
                    CommandView::SendMsg(
                        MsgView::TimeChanged(
                            guide.section_idx,
                            0,
                            nat_text(exercises[0].target_time->0 as nat),
                        ),
                    ),
                    CommandView::SendMsg(MsgView::GoToNextSection),
                ]
            } else {
                seq![CommandView::SendMsg(MsgView::GoToNextSection)]
            }
        } else {
            Seq::empty()
        },
        Some(SectionView::Rest { automatic, .. }) => if due && automatic {
            seq![CommandView::SendMsg(MsgView::GoToNextSection)]
        } else {
            Seq::empty()
        },
        None => Seq::empty(),
    }
}

/// Whether a section of sets is not timed: its first exercise aims at no
/// time, or at a number of repetitions.
pub open spec fn untimed(section: Option<SectionView>) -> bool {
    section matches Some(SectionView::ExerciseSet { exercises }) && exercises.len() > 0 && (
    exercises[0].target_time is None || exercises[0].target_reps is Some)
}

impl ModelView {
    /// Whether any instrument of the dialog runs.
    pub open spec fn instruments_active(self) -> bool {
        self.timer_dialog.stopwatch.running() || self.timer_dialog.metronome.is_active
            || self.timer_dialog.timer.is_active()
    }

    /// Whether there is a guide whose timer runs.
    pub open spec fn guide_active(self) -> bool {
        self.guide is Some && self.guide->0.timer.is_active()
    }

    /// Each of the two polling tasks exists exactly while something it
    /// polls runs.
    pub open spec fn streams_consistent(self) -> bool {
        &&& self.timer_stream == self.instruments_active()
        &&& self.guide is Some ==> self.guide->0.stream == self.guide->0.timer.is_active()
    }

    pub open spec fn wf(self) -> bool {
        self.timer_dialog.metronome.wf() && self.streams_consistent()
    }

    /// The section the guide is at, if there is a guide and its index is
    /// one of the form's.
    pub open spec fn current_section(self) -> Option<SectionView> {
        match self.guide {
            Some(guide) => if guide.section_idx < self.form.sections.len() {
                Some(self.form.sections[guide.section_idx as int])
            } else {
                None
            },
            None => None,
        }
    }

    /// The model with the polling tasks as the instruments ask for them.
    pub open spec fn with_streams(self) -> ModelView {
        ModelView {
            guide: match self.guide {
                Some(guide) => Some(GuideView { stream: guide.timer.is_active(), ..guide }),
                None => None,
            },
            timer_stream: self.instruments_active(),
            ..self
        }
    }

    /// The commands that bring the polling tasks about.
    pub open spec fn stream_commands(self) -> Seq<CommandView> {
        seq![
            CommandView::GuideStream(self.guide_active()),
            CommandView::TimerStream(self.instruments_active()),
        ]
    }

    /// The model with the guide's timer as the current section asks for
    /// it; the same model where there is no such section.
    pub open spec fn recomputed(self, now: Instant) -> ModelView {
        match self.current_section() {
            Some(section) => ModelView {
                guide: Some(
                    GuideView {
                        timer: section_timer(
                            self.guide->0.timer,
                            section,
                            self.guide->0.section_start_time,
                            now,
                        ),
                        ..self.guide->0
                    },
                ),
                ..self
            },
            None => self,
        }
    }

    /// The model with the guide at the section `section_idx`, begun at
    /// `now`, its timer as that section asks for it and the polling tasks
    /// to match.
    pub open spec fn at_section(self, section_idx: usize, now: Instant) -> ModelView {
        self.with_guide(
            Some(GuideView { section_idx, section_start_time: now, ..self.guide->0 }),
        ).recomputed(now).with_streams()
    }

    pub open spec fn with_guide(self, guide: Option<GuideView>) -> ModelView {
        ModelView { guide, ..self }
    }

    pub open spec fn with_dialog(self, timer_dialog: DialogView) -> ModelView {
        ModelView { timer_dialog, ..self }
    }

    /// The model with one row of the form replaced.
    pub open spec fn with_row(self, s: usize, e: usize, row: ExerciseFormView) -> ModelView {
        ModelView { form: self.form.with_row(s as int, e as int, row), ..self }
    }

    /// The row at place `e` of the section `s`.
    pub open spec fn row(self, s: usize, e: usize) -> ExerciseFormView {
        self.form.row(s as int, e as int)
    }

    /// A transition that changes the state and asks for nothing.
    pub open spec fn silently(self) -> Outcome {
        Outcome { model: self, commands: Seq::empty() }
    }

    /// A transition that changes the state and then sets up the polling
    /// tasks.
    pub open spec fn streaming(self) -> Outcome {
        Outcome { model: self.with_streams(), commands: self.stream_commands() }
    }

    /// Guided mode starts: the guide stands at the first section with its
    /// timer as that section asks for it. The store is told of the start
    /// and of the guide's state before the section is announced.
    pub open spec fn guide_started(self, data: DataView, now: Instant) -> Outcome {
        let started = self.with_guide(
            Some(GuideView::fresh(data.settings.beep_volume, now)),
        ).recomputed(now).with_streams();
        Outcome {
            model: started,
            commands: started.stream_commands() + seq![
                CommandView::Notify(
                    StoreMsgView::StartTrainingSession(self.training_session_id),
                ),
            ] + metronome_commands(
                data.settings.automatic_metronome,
                started.current_section(),
            ) + seq![persist_command(started.guide->0)] + notification_commands(
                started.current_section(),
            ) + seq![CommandView::PushUrl(Route::Guide)],
        }
    }

    /// Guided mode is taken up again from the record of the session under
    /// way; the timer is not set anew from the section's beginning.
    pub open spec fn guide_continued(
        self,
        record: OngoingTrainingSession,
        data: DataView,
        now: Instant,
    ) -> Outcome {
        let resumed = self.with_guide(
            Some(GuideView::resumed(record, data.settings.beep_volume, now)),
        ).with_streams();
        Outcome {
            model: resumed,
            commands: metronome_commands(
                data.settings.automatic_metronome,
                resumed.current_section(),
            ) + resumed.stream_commands() + notification_commands(resumed.current_section())
                + seq![
                CommandView::ForceRender,
                CommandView::SendMsg(MsgView::ScrollToSection),
                CommandView::PushUrl(Route::Guide),
            ],
        }
    }

    /// The guide is polled: it may ask to go on, an untimed section of
    /// sets loses the duration to go back to, and the timer is polled.
    pub open spec fn guide_polled(self, clocks: Clocks) -> Outcome {
        match self.guide {
            Some(guide) => {
                let timer = if untimed(self.current_section()) {
                    TimerView { reset_time: 0, ..guide.timer }
                } else {
                    guide.timer
                };
                Outcome {
                    model: self.with_guide(
                        Some(
                            GuideView { timer: timer.updated(clocks.now, clocks.audio), ..guide },
                        ),
                    ),
                    commands: advance_commands(guide, self.current_section(), clocks.now)
                        + tone_commands(timer.tone(clocks.now, clocks.audio)),
                }
            },
            None => self.silently(),
        }
    }

    /// The guide's timer is started or paused by hand, where it shows
    /// seconds to start with, and the store is told.
    pub open spec fn guide_timer_toggled(self, now: Instant) -> Outcome {
        match self.guide {
            Some(guide) => {
                let timer = if guide.timer.is_active() || guide.timer.time is Some {
                    guide.timer.start_paused(now)
                } else {
                    guide.timer
                };
                let toggled = self.with_guide(Some(GuideView { timer, ..guide })).with_streams();
                Outcome {
                    model: toggled,
                    commands: seq![persist_command(toggled.guide->0)] + toggled.stream_commands(),
                }
            },
            None => self.streaming(),
        }
    }

    /// The guide goes back one section; at the first section, or without a
    /// guide, nothing happens.
    pub open spec fn moved_back(self, data: DataView, now: Instant) -> Outcome {
        if self.guide is Some && self.guide->0.section_idx > 0 {
            let moved = self.at_section((self.guide->0.section_idx - 1) as usize, now);
            Outcome {
                model: moved,
                commands: moved.stream_commands() + metronome_commands(
                    data.settings.automatic_metronome,
                    moved.current_section(),
                ) + seq![
                    persist_command(moved.guide->0),
                    CommandView::CloseNotification,
                    CommandView::ForceRender,
                    CommandView::SendMsg(MsgView::ScrollToSection),
                ],
            }
        } else {
            self.silently()
        }
    }

    /// Whether the guide stands at the last section, or beyond all of them.
    pub open spec fn at_last_section(self) -> bool {
        self.guide is Some && self.guide->0.section_idx + 1 >= self.form.sections.len()
    }

    /// The guide goes on. From the last section it ends: there is no guide
    /// any more, the metronome is paused, the store is told that the
    /// session is over, and the notification is taken down. Else it stands
    /// at the next section, begun now, with the timer as that section asks
    /// for it; the store is told before the section is announced. Either
    /// way a form that was touched is saved. Without a guide nothing
    /// happens.
    pub open spec fn moved_on(self, data: DataView, now: Instant) -> Outcome {
        if self.guide is None {
            self.silently()
        } else if self.at_last_section() {
            let ended = self.with_guide(None).with_streams();
            Outcome {
                model: ended,
                commands: seq![
                    CommandView::SendMsg(MsgView::PauseMetronome),
                    CommandView::Notify(StoreMsgView::EndTrainingSession),
                    CommandView::CloseNotification,
                ] + ended.stream_commands() + seq![CommandView::ForceRender] + save_commands(
                    self.form,
                ),
            }
        } else {
            let moved = self.at_section((self.guide->0.section_idx + 1) as usize, now);
            Outcome {
                model: moved,
                commands: metronome_commands(
                    data.settings.automatic_metronome,
                    moved.current_section(),
                ) + moved.stream_commands() + seq![persist_command(moved.guide->0)]
                    + notification_commands(moved.current_section()) + seq![
                    CommandView::ForceRender,
                    CommandView::SendMsg(MsgView::UpdateGuidedTrainingSession),
                    CommandView::SendMsg(MsgView::ScrollToSection),
                ] + save_commands(self.form),
            }
        }
    }

    /// The store reports back. After a change of the data the form is built
    /// anew and the guide's timer set as its section asks for it.
    pub open spec fn after_event(self, event: Event, data: DataView, now: Instant) -> Outcome {
        match event {
            Event::DataChanged | Event::TrainingSessionModifiedOk => ModelView {
                form: form_of(
                    session_with_id(data.training_sessions, self.training_session_id),
                    data,
                ),
                loading: false,
                ..self
            }.recomputed(now).streaming(),
            Event::TrainingSessionModifiedErr => ModelView {
                loading: false,
                ..self
            }.recomputed(now).streaming(),
            Event::BeepVolumeChanged => ModelView {
                timer_dialog: DialogView {
                    metronome: Metronome {
                        beep_volume: data.settings.beep_volume,
                        ..self.timer_dialog.metronome
                    },
                    timer: TimerView {
                        beep_volume: data.settings.beep_volume,
                        ..self.timer_dialog.timer
                    },
                    ..self.timer_dialog
                },
                guide: match self.guide {
                    Some(guide) => Some(
                        GuideView {
                            timer: TimerView {
                                beep_volume: data.settings.beep_volume,
                                ..guide.timer
                            },
                            ..guide
                        },
                    ),
                    None => None,
                },
                ..self
            }.silently(),
            Event::PeriodCreatedOk
            | Event::PeriodReplacedOk
            | Event::PeriodDeletedOk
            | Event::Other => self.silently(),
        }
    }

    /// The dialog's instruments are polled.
    pub open spec fn dialog_polled(self, clocks: Clocks) -> Outcome {
        let dialog = self.timer_dialog;
        Outcome {
            model: self.with_dialog(
                DialogView {
                    stopwatch: dialog.stopwatch.updated(clocks.now),
                    metronome: dialog.metronome.updated(clocks.audio),
                    timer: dialog.timer.updated(clocks.now, clocks.audio),
                    ..dialog
                },
            ),
            commands: beep_commands(dialog.metronome.due_beats(clocks.audio)) + tone_commands(
                dialog.timer.tone(clocks.now, clocks.audio),
            ),
        }
    }

    /// The dialog's timer is started or paused, where it shows seconds to
    /// start with.
    pub open spec fn dialog_timer_toggled(self, now: Instant) -> Outcome {
        let timer = self.timer_dialog.timer;
        self.with_dialog(
            DialogView {
                timer: if timer.is_active() || timer.time is Some {
                    timer.start_paused(now)
                } else {
                    timer
                },
                ..self.timer_dialog
            },
        ).streaming()
    }
}

/// The duration the dialog's timer shows at first, in seconds.
pub const FIRST_TIMER_DURATION: i64 = 60;

/// The id of the session that a part of the page's address names: the
/// number it denotes, or zero where it is missing or denotes none.
pub open spec fn id_of(part: Option<Seq<char>>) -> u32 {
    match part {
        Some(text) => match u32_of_text(text) {
            Some(id) => id,
            None => 0,
        },
        None => 0,
    }
}

/// The page as it is entered. The address names the session and may ask
/// for editing or for the guide. The form is that of the session with that
/// id, the instruments stand still, and where the record of the session
/// under way is of this session, the guide is asked to take it up again.
pub open spec fn initial(
    id_part: Option<Seq<char>>,
    action: Option<Seq<char>>,
    data: DataView,
    now: Instant,
) -> Outcome {
    let id = id_of(id_part);
    Outcome {
        model: ModelView {
            training_session_id: id,
            form: form_of(session_with_id(data.training_sessions, id), data),
            guide: if action == Some("guide"@) {
                Some(GuideView::fresh(data.settings.beep_volume, now))
            } else {
                None
            },
            timer_dialog: DialogView {
                visible: false,
                stopwatch: Stopwatch { time: 0, start_time: None },
                metronome: Metronome {
                    interval: 1,
                    stressed_beat: 1,
                    beat_number: 0,
                    next_beat_time: AudioTime { micros: 0 },
                    is_active: false,
                    beep_volume: data.settings.beep_volume,
                },
                timer: TimerView::fresh(data.settings.beep_volume).set_to(
                    FIRST_TIMER_DURATION,
                    now,
                ),
            },
            timer_stream: false,
            editing: action == Some("edit"@),
            loading: false,
        },
        commands: match data.ongoing_training_session {
            Some(record) => if record.training_session_id == id {
                seq![CommandView::SendMsg(MsgView::ContinueGuidedTrainingSession(record))]
            } else {
                Seq::empty()
            },
            None => Seq::empty(),
        },
    }
}

/// The transition of the page: where the message `msg` leads from the state
/// `model`, with the store holding `data` and the clocks reading `clocks`.
pub open spec fn step(model: ModelView, msg: MsgView, data: DataView, clocks: Clocks) -> Outcome {
    let dialog = model.timer_dialog;
    match msg {
        MsgView::RepsChanged(s, e, input) => model.with_row(
            s,
            e,
            ExerciseFormView { reps: reps_entered(input), ..model.row(s, e) },
        ).silently(),
        MsgView::TimeChanged(s, e, input) => model.with_row(
            s,
            e,
            ExerciseFormView { time: time_entered(input), ..model.row(s, e) },
        ).silently(),
        MsgView::WeightChanged(s, e, input) => model.with_row(
            s,
            e,
            ExerciseFormView { weight: weight_entered(input), ..model.row(s, e) },
        ).silently(),
        MsgView::RPEChanged(s, e, input) => model.with_row(
            s,
            e,
            ExerciseFormView { rpe: rpe_entered(input), ..model.row(s, e) },
        ).silently(),
        MsgView::NotesChanged(notes) => ModelView {
            form: FormView { notes, notes_changed: true, ..model.form },
            ..model
        }.silently(),
        MsgView::EnterTargetValues(s, e) => model.with_row(
            s,
            e,
            model.row(s, e).with_targets(),
        ).silently(),
        MsgView::EnterPreviousValues(s, e) => model.with_row(
            s,
            e,
            model.row(s, e).with_previous(),
        ).silently(),
        MsgView::StartGuidedTrainingSession => model.guide_started(data, clocks.now),
        MsgView::ContinueGuidedTrainingSession(record) => model.guide_continued(
            record,
            data,
            clocks.now,
        ),
        MsgView::UpdateGuidedTrainingSession => model.guide_polled(clocks),
        MsgView::StartPauseGuideTimer => model.guide_timer_toggled(clocks.now),
        MsgView::GoToPreviousSection => model.moved_back(data, clocks.now),
        MsgView::GoToNextSection => model.moved_on(data, clocks.now),
        MsgView::ScrollToSection => Outcome {
            model,
            commands: match model.guide {
                Some(guide) => seq![CommandView::ScrollIntoView(guide.section_idx)],
                None => Seq::empty(),
            },
        },
        MsgView::EditTrainingSession => Outcome {
            model: ModelView { editing: true, ..model },
            commands: seq![CommandView::PushUrl(Route::Edit)],
        },
        MsgView::SaveTrainingSession => Outcome {
            model: ModelView { loading: true, ..model },
            commands: seq![
                CommandView::Notify(
                    StoreMsgView::ModifyTrainingSession(
                        model.training_session_id,
                        Some(model.form.notes),
                        Some(model.form.elements()),
                    ),
                ),
            ],
        },
        MsgView::DataEvent(event) => model.after_event(event, data, clocks.now),
        MsgView::ShowSMTDialog => model.with_dialog(
            DialogView { visible: true, ..dialog },
        ).silently(),
        MsgView::CloseSMTDialog => model.with_dialog(
            DialogView { visible: false, ..dialog },
        ).silently(),
        MsgView::UpdateSMTDialog => model.dialog_polled(clocks),
        MsgView::StartPauseStopwatch => model.with_dialog(
            DialogView { stopwatch: dialog.stopwatch.start_paused(clocks.now), ..dialog },
        ).streaming(),
        MsgView::ResetStopwatch => model.with_dialog(
            DialogView { stopwatch: dialog.stopwatch.reset_at(clocks.now), ..dialog },
        ).silently(),
        MsgView::ToggleStopwatch => model.with_dialog(
            DialogView { stopwatch: dialog.stopwatch.toggled(clocks.now), ..dialog },
        ).streaming(),
        MsgView::StartMetronome(interval) => model.with_dialog(
            DialogView {
                metronome: Metronome {
                    interval: at_least_one(interval),
                    stressed_beat: 1,
                    ..dialog.metronome
                }.started(clocks.audio),
                ..dialog
            },
        ).streaming(),
        MsgView::PauseMetronome => model.with_dialog(
            DialogView { metronome: dialog.metronome.paused(), ..dialog },
        ).streaming(),
        MsgView::StartPauseMetronome => model.with_dialog(
            DialogView { metronome: dialog.metronome.start_paused(clocks.audio), ..dialog },
        ).streaming(),
        MsgView::MetronomeIntervalChanged(text) => model.with_dialog(
            DialogView {
                metronome: Metronome { interval: count_or_one(text), ..dialog.metronome },
                ..dialog
            },
        ).silently(),
        MsgView::MetronomeStressChanged(text) => model.with_dialog(
            DialogView {
                metronome: Metronome { stressed_beat: count_or_one(text), ..dialog.metronome },
                ..dialog
            },
        ).silently(),
        MsgView::StartPauseTimer => model.dialog_timer_toggled(clocks.now),
        MsgView::ResetTimer => model.with_dialog(
            DialogView { timer: dialog.timer.reset_at(clocks.now), ..dialog },
        ).silently(),
        MsgView::TimerTimeChanged(text) => model.with_dialog(
            DialogView { timer: dialog.timer.typed(text), ..dialog },
        ).silently(),
    }
}

fn push(commands: &mut Vec<Command>, command: Command)
    ensures
        command_views(final(commands)@) == command_views(old(commands)@).push(command@),
{
    commands.push(command);
    assert(command_views(commands@) =~= command_views(old(commands)@).push(command@));
}

fn update_streams(model: &mut Model, commands: &mut Vec<Command>)
    ensures
        final(model)@ == old(model)@.with_streams(),
        command_views(final(commands)@) == command_views(old(commands)@) + old(
            model,
        )@.stream_commands(),
{
    let guide_active = match &mut model.guide {
        Some(guide) => {
            guide.stream = guide.timer.is_active();
            guide.stream
        },
        None => false,
    };
    model.timer_stream = model.timer_dialog.stopwatch.is_active()
        || model.timer_dialog.metronome.is_active() || model.timer_dialog.timer.is_active();
    push(commands, Command::GuideStream(guide_active));
    push(commands, Command::TimerStream(model.timer_stream));
    assert(model@ =~~= old(model)@.with_streams());
    assert(command_views(commands@) =~= command_views(old(commands)@) + old(
        model,
    )@.stream_commands());
}

fn update_guide_timer(model: &mut Model, now: Instant)
    ensures
        final(model)@ == old(model)@.recomputed(now),
{
    if let Some(guide) = &mut model.guide {
        if guide.section_idx < model.form.sections.len() {
            guide.time_section(&model.form.sections[guide.section_idx], now);
        }
    }
    assert(model@ =~~= old(model)@.recomputed(now));
}

fn update_metronome(follow: bool, model: &Model, commands: &mut Vec<Command>)
    ensures
        command_views(final(commands)@) == command_views(old(commands)@) + metronome_commands(
            follow,
            model@.current_section(),
        ),
{
    if follow {
        if let Some(guide) = &model.guide {
            if guide.section_idx < model.form.sections.len() {
                match &model.form.sections[guide.section_idx] {
                    FormSection::ExerciseSet { exercises } => {
                        if exercises.len() > 0 {
                            let exercise = &exercises[0];
                            assert(row_views(exercises@)[0] == exercise@);
                            if exercise.target_reps.is_some() {
                                if let Some(target_time) = exercise.target_time {
                                    push(commands, Command::SendMsg(Msg::StartMetronome(target_time)));
                                }
                            }
                        }
                    },
                    FormSection::Rest { .. } => {
                        push(commands, Command::SendMsg(Msg::PauseMetronome));
                    },
                }
            }
        }
    }
    assert(command_views(commands@) =~= command_views(old(commands)@) + metronome_commands(
        follow,
        model@.current_section(),
    ));
}

fn show_section_notification(model: &Model, commands: &mut Vec<Command>)
    ensures
        command_views(final(commands)@) == command_views(old(commands)@) + notification_commands(
            model@.current_section(),
        ),
{
    if let Some(guide) = &model.guide {
        if guide.section_idx < model.form.sections.len() {
            if let Some(notification) = section_notification(
                &model.form.sections[guide.section_idx],
            ) {
                push(commands, Command::ShowNotification(notification));
            }
        }
    }
    assert(command_views(commands@) =~= command_views(old(commands)@) + notification_commands(
        model@.current_section(),
    ));
}

fn persist(guide: &Guide, commands: &mut Vec<Command>)
    ensures
        command_views(final(commands)@) == command_views(old(commands)@).push(
            persist_command(guide@),
        ),
{
    push(
        commands,
        Command::Notify(
            StoreMsg::UpdateTrainingSession(guide.section_idx, guide.timer.to_timer_state()),
        ),
    );
}

fn save_if_changed(form: &Form, commands: &mut Vec<Command>)
    ensures
        command_views(final(commands)@) == command_views(old(commands)@) + save_commands(form@),
{
    if form.changed() {
        push(commands, Command::SendMsg(Msg::SaveTrainingSession));
    }
    assert(command_views(commands@) =~= command_views(old(commands)@) + save_commands(form@));
}

fn push_tone(tone: Option<Beep>, commands: &mut Vec<Command>)
    ensures
        command_views(final(commands)@) == command_views(old(commands)@) + tone_commands(tone),
{
    if let Some(beep) = tone {
        push(commands, Command::Beep(beep));
    }
    assert(command_views(commands@) =~= command_views(old(commands)@) + tone_commands(tone));
}

fn push_beeps(beeps: &Vec<Beep>, commands: &mut Vec<Command>)
    ensures
        command_views(final(commands)@) == command_views(old(commands)@) + beep_commands(beeps@),
{
    let mut i: usize = 0;
    while i < beeps.len()
        invariant
            i <= beeps.len(),
            command_views(commands@) == command_views(old(commands)@) + beep_commands(
                beeps@.take(i as int),
            ),
        decreases beeps.len() - i,
    {
        push(commands, Command::Beep(beeps[i]));
        assert(command_views(commands@) =~= command_views(old(commands)@) + beep_commands(
            beeps@.take(i + 1),
        ));
        i = i + 1;
    }
    assert(beeps@.take(i as int) =~= beeps@);
}

fn no_commands() -> (commands: Vec<Command>)
    ensures
        command_views(commands@) == Seq::<CommandView>::empty(),
{
    let commands: Vec<Command> = Vec::new();
    assert(command_views(commands@) =~= Seq::<CommandView>::empty());
    commands
}

fn edit_reps(model: &mut Model, s: usize, e: usize, input: String)
    ensures
        final(model)@ == old(model)@.with_row(
            s,
            e,
            ExerciseFormView { reps: reps_entered(input@), ..old(model)@.row(s, e) },
        ),
{
    if s < model.form.sections.len() {
        match &mut model.form.sections[s] {
            FormSection::ExerciseSet { exercises } => {
                if e < exercises.len() {
                    exercises[e].reps = InputField::reps_from_input(input);
                }
            },
            FormSection::Rest { .. } => {},
        }
    }
    assert(model@ =~~= old(model)@.with_row(
        s,
        e,
        ExerciseFormView { reps: reps_entered(input@), ..old(model)@.row(s, e) },
    ));
}

fn edit_time(model: &mut Model, s: usize, e: usize, input: String)
    ensures
        final(model)@ == old(model)@.with_row(
            s,
            e,
            ExerciseFormView { time: time_entered(input@), ..old(model)@.row(s, e) },
        ),
{
    if s < model.form.sections.len() {
        match &mut model.form.sections[s] {
            FormSection::ExerciseSet { exercises } => {
                if e < exercises.len() {
                    exercises[e].time = InputField::time_from_input(input);
                }
            },
            FormSection::Rest { .. } => {},
        }
    }
    assert(model@ =~~= old(model)@.with_row(
        s,
        e,
        ExerciseFormView { time: time_entered(input@), ..old(model)@.row(s, e) },
    ));
}

fn edit_weight(model: &mut Model, s: usize, e: usize, input: String)
    ensures
        final(model)@ == old(model)@.with_row(
            s,
            e,
            ExerciseFormView { weight: weight_entered(input@), ..old(model)@.row(s, e) },
        ),
{
    if s < model.form.sections.len() {
        match &mut model.form.sections[s] {
            FormSection::ExerciseSet { exercises } => {
                if e < exercises.len() {
                    exercises[e].weight = InputField::weight_from_input(input);
                }
            },
            FormSection::Rest { .. } => {},
        }
    }
    assert(model@ =~~= old(model)@.with_row(
        s,
        e,
        ExerciseFormView { weight: weight_entered(input@), ..old(model)@.row(s, e) },
    ));
}

fn edit_rpe(model: &mut Model, s: usize, e: usize, input: String)
    ensures
        final(model)@ == old(model)@.with_row(
            s,
            e,
            ExerciseFormView { rpe: rpe_entered(input@), ..old(model)@.row(s, e) },
        ),
{
    if s < model.form.sections.len() {
        match &mut model.form.sections[s] {
            FormSection::ExerciseSet { exercises } => {
                if e < exercises.len() {
                    exercises[e].rpe = InputField::rpe_from_input(input);
                }
            },
            FormSection::Rest { .. } => {},
        }
    }
    assert(model@ =~~= old(model)@.with_row(
        s,
        e,
        ExerciseFormView { rpe: rpe_entered(input@), ..old(model)@.row(s, e) },
    ));
}

fn fill_targets(model: &mut Model, s: usize, e: usize)
    ensures
        final(model)@ == old(model)@.with_row(s, e, old(model)@.row(s, e).with_targets()),
{
    if s < model.form.sections.len() {
        match &mut model.form.sections[s] {
            FormSection::ExerciseSet { exercises } => {
                if e < exercises.len() {
                    exercises[e].enter_target_values();
                }
            },
            FormSection::Rest { .. } => {},
        }
    }
    assert(model@ =~~= old(model)@.with_row(s, e, old(model)@.row(s, e).with_targets()));
}

fn fill_previous(model: &mut Model, s: usize, e: usize)
    ensures
        final(model)@ == old(model)@.with_row(s, e, old(model)@.row(s, e).with_previous()),
{
    if s < model.form.sections.len() {
        match &mut model.form.sections[s] {
            FormSection::ExerciseSet { exercises } => {
                if e < exercises.len() {
                    exercises[e].enter_previous_values();
                }
            },
            FormSection::Rest { .. } => {},
        }
    }
    assert(model@ =~~= old(model)@.with_row(s, e, old(model)@.row(s, e).with_previous()));
}

fn start_guide(model: &mut Model, data_model: &DataModel, now: Instant) -> (commands: Vec<Command>)
    ensures
        final(model)@ == old(model)@.guide_started(data_model@, now).model,
        command_views(commands@) == old(model)@.guide_started(data_model@, now).commands,
{
    let mut commands = no_commands();
    model.guide = Some(Guide::new(data_model.settings.beep_volume, now));
    update_guide_timer(model, now);
    update_streams(model, &mut commands);
    push(&mut commands, Command::Notify(StoreMsg::StartTrainingSession(model.training_session_id)));
    update_metronome(data_model.settings.automatic_metronome, model, &mut commands);
    if let Some(guide) = &model.guide {
        persist(guide, &mut commands);
    }
    show_section_notification(model, &mut commands);
    push(&mut commands, Command::PushUrl(Route::Guide));
    proof {
        let fresh = old(model)@.with_guide(
            Some(GuideView::fresh(data_model@.settings.beep_volume, now)),
        );
        lemma_streams_keep_commands(fresh.recomputed(now));
        assert(model@ =~~= old(model)@.guide_started(data_model@, now).model);
        assert(command_views(commands@) =~= old(model)@.guide_started(
            data_model@,
            now,
        ).commands);
    }
    commands
}

fn continue_guide(
    model: &mut Model,
    record: OngoingTrainingSession,
    data_model: &DataModel,
    now: Instant,
) -> (commands: Vec<Command>)
    ensures
        final(model)@ == old(model)@.guide_continued(record, data_model@, now).model,
        command_views(commands@) == old(model)@.guide_continued(record, data_model@, now).commands,
{
    let mut commands = no_commands();
    let mut guide = Guide::from_ongoing_training_session(
        record.section_idx,
        record.section_start_time,
        data_model.settings.beep_volume,
    );
    guide.timer.restore(record.timer_state, now);
    model.guide = Some(guide);
    update_metronome(data_model.settings.automatic_metronome, model, &mut commands);
    update_streams(model, &mut commands);
    show_section_notification(model, &mut commands);
    push(&mut commands, Command::ForceRender);
    push(&mut commands, Command::SendMsg(Msg::ScrollToSection));
    push(&mut commands, Command::PushUrl(Route::Guide));
    proof {
        let resumed = old(model)@.with_guide(
            Some(GuideView::resumed(record, data_model@.settings.beep_volume, now)),
        );
        lemma_streams_keep_commands(resumed);
        assert(model@ =~~= old(model)@.guide_continued(record, data_model@, now).model);
        assert(command_views(commands@) =~= old(model)@.guide_continued(
            record,
            data_model@,
            now,
        ).commands);
    }
    commands
}

fn advance(guide: &Guide, form: &Form, now: Instant, commands: &mut Vec<Command>) -> (stale: bool)
    ensures
        command_views(final(commands)@) == command_views(old(commands)@) + advance_commands(
            guide@,
            if guide.section_idx < form@.sections.len() {
                Some(form@.sections[guide.section_idx as int])
            } else {
                None
            },
            now,
        ),
        stale == untimed(
            if guide.section_idx < form@.sections.len() {
                Some(form@.sections[guide.section_idx as int])
            } else {
                None
            },
        ),
{
    let mut stale = false;
    if guide.section_idx < form.sections.len() {
        let due = match guide.timer.remaining(now) {
            Some(seconds) => seconds <= 0,
            None => false,
        };
        match &form.sections[guide.section_idx] {
            FormSection::ExerciseSet { exercises } => {
                if exercises.len() > 0 {
                    let exercise = &exercises[0];
                    assert(row_views(exercises@)[0] == exercise@);
                    match exercise.target_time {
                        Some(target_time) => {
                            if exercise.target_reps.is_some() {
                                stale = true;
                            } else if due {
                                let entered = match exercise.time.parsed {
                                    Some(seconds) => seconds == target_time,
                                    None => false,
                                };
                                if !entered {
                                    push(
                                        commands,
                                        Command::SendMsg(
                                            Msg::TimeChanged(
                                                guide.section_idx,
                                                0,
                                                render_u32(target_time),
                                            ),
                                        ),
                                    );
                                }
                                push(commands, Command::SendMsg(Msg::GoToNextSection));
                            }
                        },
                        None => {
                            stale = true;
                        },
                    }
                }
            },
            FormSection::Rest { automatic, .. } => {
                if due && *automatic {
                    push(commands, Command::SendMsg(Msg::GoToNextSection));
                }
            },
        }
    }
    assert(command_views(commands@) =~= command_views(old(commands)@) + advance_commands(
        guide@,
        if guide.section_idx < form@.sections.len() {
            Some(form@.sections[guide.section_idx as int])
        } else {
            None
        },
        now,
    ));
    stale
}

fn poll_guide(model: &mut Model, clocks: Clocks) -> (commands: Vec<Command>)
    ensures
        final(model)@ == old(model)@.guide_polled(clocks).model,
        command_views(commands@) == old(model)@.guide_polled(clocks).commands,
{
    let mut commands = no_commands();
    if let Some(guide) = &mut model.guide {
        let stale = advance(guide, &model.form, clocks.now, &mut commands);
        if stale {
            guide.timer.reset_time = 0;
        }
        let tone = guide.timer.update(clocks.now, clocks.audio);
        push_tone(tone, &mut commands);
    }
    assert(model@ =~~= old(model)@.guide_polled(clocks).model);
    assert(command_views(commands@) =~= old(model)@.guide_polled(clocks).commands);
    commands
}

fn toggle_guide_timer(model: &mut Model, now: Instant) -> (commands: Vec<Command>)
    ensures
        final(model)@ == old(model)@.guide_timer_toggled(now).model,
        command_views(commands@) == old(model)@.guide_timer_toggled(now).commands,
{
    let mut commands = no_commands();
    if let Some(guide) = &mut model.guide {
        if guide.timer.is_active() || guide.timer.time.is_some() {
            guide.timer.start_pause(now);
        }
        persist(guide, &mut commands);
    }
    let ghost toggled = model@;
    update_streams(model, &mut commands);
    proof {
        lemma_streams_keep_commands(toggled);
        assert(model@ =~~= old(model)@.guide_timer_toggled(now).model);
        assert(command_views(commands@) =~= old(model)@.guide_timer_toggled(now).commands);
    }
    commands
}

fn enter_section(model: &mut Model, section_idx: usize, now: Instant)
    requires
        old(model).guide is Some,
    ensures
        final(model)@ == old(model)@.at_section(section_idx, now),
        final(model).guide is Some,
{
    if let Some(guide) = &mut model.guide {
        guide.section_idx = section_idx;
        guide.section_start_time = now;
    }
    let ghost shifted = model@;
    assert(shifted =~~= old(model)@.with_guide(
        Some(GuideView { section_idx, section_start_time: now, ..old(model)@.guide->0 }),
    ));
    update_guide_timer(model, now);
    let mut unused = no_commands();
    update_streams(model, &mut unused);
}

fn push_stream_commands(model: &Model, commands: &mut Vec<Command>)
    ensures
        command_views(final(commands)@) == command_views(old(commands)@)
            + model@.stream_commands(),
{
    let guide_active = match &model.guide {
        Some(guide) => guide.timer.is_active(),
        None => false,
    };
    let instruments = model.timer_dialog.stopwatch.is_active()
        || model.timer_dialog.metronome.is_active() || model.timer_dialog.timer.is_active();
    push(commands, Command::GuideStream(guide_active));
    push(commands, Command::TimerStream(instruments));
    assert(command_views(commands@) =~= command_views(old(commands)@)
        + model@.stream_commands());
}

fn back_commands(model: &Model, data_model: &DataModel) -> (commands: Vec<Command>)
    requires
        model.guide is Some,
    ensures
        command_views(commands@) == model@.stream_commands() + metronome_commands(
            data_model@.settings.automatic_metronome,
            model@.current_section(),
        ) + seq![
            persist_command(model@.guide->0),
            CommandView::CloseNotification,
            CommandView::ForceRender,
            CommandView::SendMsg(MsgView::ScrollToSection),
        ],
{
    let mut commands = no_commands();
    push_stream_commands(model, &mut commands);
    update_metronome(data_model.settings.automatic_metronome, model, &mut commands);
    if let Some(guide) = &model.guide {
        persist(guide, &mut commands);
    }
    push(&mut commands, Command::CloseNotification);
    push(&mut commands, Command::ForceRender);
    push(&mut commands, Command::SendMsg(Msg::ScrollToSection));
    assert(command_views(commands@) =~= model@.stream_commands() + metronome_commands(
        data_model@.settings.automatic_metronome,
        model@.current_section(),
    ) + seq![
        persist_command(model@.guide->0),
        CommandView::CloseNotification,
        CommandView::ForceRender,
        CommandView::SendMsg(MsgView::ScrollToSection),
    ]);
    commands
}

fn go_back(model: &mut Model, data_model: &DataModel, now: Instant) -> (commands: Vec<Command>)
    ensures
        final(model)@ == old(model)@.moved_back(data_model@, now).model,
        command_views(commands@) == old(model)@.moved_back(data_model@, now).commands,
{
    let target = match &model.guide {
        Some(guide) => if guide.section_idx > 0 {
            Some(guide.section_idx - 1)
        } else {
            None
        },
        None => None,
    };
    match target {
        Some(section_idx) => {
            enter_section(model, section_idx, now);
            back_commands(model, data_model)
        },
        None => no_commands(),
    }
}

fn end_commands(model: &Model, form: &Form) -> (commands: Vec<Command>)
    ensures
        command_views(commands@) == seq![
            CommandView::SendMsg(MsgView::PauseMetronome),
            CommandView::Notify(StoreMsgView::EndTrainingSession),
            CommandView::CloseNotification,
        ] + model@.stream_commands() + seq![CommandView::ForceRender] + save_commands(form@),
{
    let mut commands = no_commands();
    push(&mut commands, Command::SendMsg(Msg::PauseMetronome));
    push(&mut commands, Command::Notify(StoreMsg::EndTrainingSession));
    push(&mut commands, Command::CloseNotification);
    push_stream_commands(model, &mut commands);
    push(&mut commands, Command::ForceRender);
    save_if_changed(form, &mut commands);
    assert(command_views(commands@) =~= seq![
        CommandView::SendMsg(MsgView::PauseMetronome),
        CommandView::Notify(StoreMsgView::EndTrainingSession),
        CommandView::CloseNotification,
    ] + model@.stream_commands() + seq![CommandView::ForceRender] + save_commands(form@));
    commands
}

fn onward_commands(model: &Model, data_model: &DataModel) -> (commands: Vec<Command>)
    requires
        model.guide is Some,
    ensures
        command_views(commands@) == metronome_commands(
            data_model@.settings.automatic_metronome,
            model@.current_section(),
        ) + model@.stream_commands() + seq![persist_command(model@.guide->0)]
            + notification_commands(model@.current_section()) + seq![
            CommandView::ForceRender,
            CommandView::SendMsg(MsgView::UpdateGuidedTrainingSession),
            CommandView::SendMsg(MsgView::ScrollToSection),
        ] + save_commands(model@.form),
{
    let mut commands = no_commands();
    update_metronome(data_model.settings.automatic_metronome, model, &mut commands);
    push_stream_commands(model, &mut commands);
    if let Some(guide) = &model.guide {
        persist(guide, &mut commands);
    }
    show_section_notification(model, &mut commands);
    push(&mut commands, Command::ForceRender);
    push(&mut commands, Command::SendMsg(Msg::UpdateGuidedTrainingSession));
    push(&mut commands, Command::SendMsg(Msg::ScrollToSection));
    save_if_changed(&model.form, &mut commands);
    assert(command_views(commands@) =~= metronome_commands(
        data_model@.settings.automatic_metronome,
        model@.current_section(),
    ) + model@.stream_commands() + seq![persist_command(model@.guide->0)]
        + notification_commands(model@.current_section()) + seq![
        CommandView::ForceRender,
        CommandView::SendMsg(MsgView::UpdateGuidedTrainingSession),
        CommandView::SendMsg(MsgView::ScrollToSection),
    ] + save_commands(model@.form));
    commands
}

fn end_guide(model: &mut Model)
    ensures
        final(model)@ == old(model)@.with_guide(None).with_streams(),
{
    model.guide = None;
    assert(model@ =~~= old(model)@.with_guide(None));
    let mut unused = no_commands();
    update_streams(model, &mut unused);
}

fn go_on(model: &mut Model, data_model: &DataModel, now: Instant) -> (commands: Vec<Command>)
    ensures
        final(model)@ == old(model)@.moved_on(data_model@, now).model,
        command_views(commands@) == old(model)@.moved_on(data_model@, now).commands,
{
    let count = model.form.sections.len();
    let target = match &model.guide {
        Some(guide) => if guide.section_idx >= count || guide.section_idx + 1 >= count {
            Some(None)
        } else {
            Some(Some(guide.section_idx + 1))
        },
        None => None,
    };
    match target {
        None => no_commands(),
        Some(None) => {
            end_guide(model);
            proof {
                lemma_streams_keep_commands(old(model)@.with_guide(None));
            }
            end_commands(model, &model.form)
        },
        Some(Some(section_idx)) => {
            enter_section(model, section_idx, now);
            proof {
                lemma_at_section_keeps_form(old(model)@, section_idx, now);
            }
            onward_commands(model, data_model)
        },
    }
}

fn stream(model: &mut Model) -> (commands: Vec<Command>)
    ensures
        final(model)@ == old(model)@.streaming().model,
        command_views(commands@) == old(model)@.streaming().commands,
{
    let mut commands = no_commands();
    update_streams(model, &mut commands);
    assert(command_views(commands@) =~= old(model)@.streaming().commands);
    commands
}

fn rebuild_form(model: &mut Model, data_model: &DataModel)
    ensures
        final(model)@ == (ModelView {
            form: form_of(
                session_with_id(data_model@.training_sessions, old(model).training_session_id),
                data_model@,
            ),
            loading: false,
            ..old(model)@
        }),
        final(model)@.form.wf(),
{
    let form = match find_session(&data_model.training_sessions, model.training_session_id) {
        Some(i) => {
            assert(session_views(data_model.training_sessions@)[i as int]
                == data_model.training_sessions@[i as int]@);
            init_form(Some(&data_model.training_sessions[i]), data_model)
        },
        None => init_form(None, data_model),
    };
    model.form = form;
    model.loading = false;
}

fn set_volume(model: &mut Model, beep_volume: u8)
    ensures
        final(model)@ == (ModelView {
            timer_dialog: DialogView {
                metronome: Metronome { beep_volume, ..old(model)@.timer_dialog.metronome },
                timer: TimerView { beep_volume, ..old(model)@.timer_dialog.timer },
                ..old(model)@.timer_dialog
            },
            guide: match old(model)@.guide {
                Some(guide) => Some(
                    GuideView { timer: TimerView { beep_volume, ..guide.timer }, ..guide },
                ),
                None => None,
            },
            ..old(model)@
        }),
{
    model.timer_dialog.metronome.beep_volume = beep_volume;
    model.timer_dialog.timer.beep_volume = beep_volume;
    if let Some(guide) = &mut model.guide {
        guide.timer.beep_volume = beep_volume;
    }
    assert(model@ =~~= (ModelView {
        timer_dialog: DialogView {
            metronome: Metronome { beep_volume, ..old(model)@.timer_dialog.metronome },
            timer: TimerView { beep_volume, ..old(model)@.timer_dialog.timer },
            ..old(model)@.timer_dialog
        },
        guide: match old(model)@.guide {
            Some(guide) => Some(
                GuideView { timer: TimerView { beep_volume, ..guide.timer }, ..guide },
            ),
            None => None,
        },
        ..old(model)@
    }));
}

fn handle_event(model: &mut Model, event: Event, data_model: &DataModel, now: Instant) -> (commands:
    Vec<Command>)
    ensures
        final(model)@ == old(model)@.after_event(event, data_model@, now).model,
        command_views(commands@) == old(model)@.after_event(event, data_model@, now).commands,
{
    match event {
        Event::DataChanged | Event::TrainingSessionModifiedOk => {
            rebuild_form(model, data_model);
            update_guide_timer(model, now);
            stream(model)
        },
        Event::TrainingSessionModifiedErr => {
            model.loading = false;
            update_guide_timer(model, now);
            stream(model)
        },
        Event::BeepVolumeChanged => {
            set_volume(model, data_model.settings.beep_volume);
            no_commands()
        },
        Event::PeriodCreatedOk
        | Event::PeriodReplacedOk
        | Event::PeriodDeletedOk
        | Event::Other => no_commands(),
    }
}

fn poll_dialog(model: &mut Model, clocks: Clocks) -> (commands: Vec<Command>)
    requires
        old(model).timer_dialog.metronome.wf(),
    ensures
        final(model)@ == old(model)@.dialog_polled(clocks).model,
        command_views(commands@) == old(model)@.dialog_polled(clocks).commands,
{
    let mut commands = no_commands();
    model.timer_dialog.stopwatch.update(clocks.now);
    let beeps = model.timer_dialog.metronome.update(clocks.audio);
    let tone = model.timer_dialog.timer.update(clocks.now, clocks.audio);
    push_beeps(&beeps, &mut commands);
    push_tone(tone, &mut commands);
    assert(model@ =~~= old(model)@.dialog_polled(clocks).model);
    assert(command_views(commands@) =~= old(model)@.dialog_polled(clocks).commands);
    commands
}

fn toggle_dialog_timer(model: &mut Model, now: Instant) -> (commands: Vec<Command>)
    ensures
        final(model)@ == old(model)@.dialog_timer_toggled(now).model,
        command_views(commands@) == old(model)@.dialog_timer_toggled(now).commands,
{
    if model.timer_dialog.timer.is_active() || model.timer_dialog.timer.time.is_some() {
        model.timer_dialog.timer.start_pause(now);
    }
    assert(model@ =~~= old(model)@.with_dialog(
        DialogView {
            timer: if old(model)@.timer_dialog.timer.is_active()
                || old(model)@.timer_dialog.timer.time is Some {
                old(model)@.timer_dialog.timer.start_paused(now)
            } else {
                old(model)@.timer_dialog.timer
            },
            ..old(model)@.timer_dialog
        },
    ));
    stream(model)
}

fn read_count(text: &str) -> (count: u32)
    ensures
        count == count_or_one(text@),
{
    match parse_u32(text) {
        Some(n) => if n == 0 {
            1
        } else {
            n
        },
        None => 1,
    }
}

fn handle_instrument(model: &mut Model, msg: Msg, clocks: Clocks) -> (commands: Vec<Command>)
    requires
        msg is StartPauseStopwatch || msg is ResetStopwatch || msg is ToggleStopwatch
            || msg is StartMetronome || msg is PauseMetronome || msg is StartPauseMetronome
            || msg is MetronomeIntervalChanged || msg is MetronomeStressChanged || msg is ResetTimer
            || msg is TimerTimeChanged || msg is ShowSMTDialog || msg is CloseSMTDialog,
    ensures
        forall|data: DataView|
            final(model)@ == (#[trigger] step(old(model)@, msg@, data, clocks)).model
                && command_views(commands@) == step(old(model)@, msg@, data, clocks).commands,
{
    let ghost before = model@;
    let ghost dialog = before.timer_dialog;
    match msg {
        Msg::ShowSMTDialog => {
            model.timer_dialog.visible = true;
            assert(model@ =~~= before.with_dialog(DialogView { visible: true, ..dialog }));
            no_commands()
        },
        Msg::CloseSMTDialog => {
            model.timer_dialog.visible = false;
            assert(model@ =~~= before.with_dialog(DialogView { visible: false, ..dialog }));
            no_commands()
        },
        Msg::StartPauseStopwatch => {
            model.timer_dialog.stopwatch.start_pause(clocks.now);
            assert(model@ =~~= before.with_dialog(
                DialogView { stopwatch: dialog.stopwatch.start_paused(clocks.now), ..dialog },
            ));
            stream(model)
        },
        Msg::ResetStopwatch => {
            model.timer_dialog.stopwatch.reset(clocks.now);
            assert(model@ =~~= before.with_dialog(
                DialogView { stopwatch: dialog.stopwatch.reset_at(clocks.now), ..dialog },
            ));
            no_commands()
        },
        Msg::ToggleStopwatch => {
            model.timer_dialog.stopwatch.toggle(clocks.now);
            assert(model@ =~~= before.with_dialog(
                DialogView { stopwatch: dialog.stopwatch.toggled(clocks.now), ..dialog },
            ));
            stream(model)
        },
        Msg::StartMetronome(interval) => {
            model.timer_dialog.metronome.interval = if interval == 0 {
                1
            } else {
                interval
            };
            model.timer_dialog.metronome.stressed_beat = 1;
            model.timer_dialog.metronome.start(clocks.audio);
            assert(model@ =~~= before.with_dialog(
                DialogView {
                    metronome: Metronome {
                        interval: at_least_one(interval),
                        stressed_beat: 1,
                        ..dialog.metronome
                    }.started(clocks.audio),
                    ..dialog
                },
            ));
            stream(model)
        },
        Msg::PauseMetronome => {
            model.timer_dialog.metronome.pause();
            assert(model@ =~~= before.with_dialog(
                DialogView { metronome: dialog.metronome.paused(), ..dialog },
            ));
            stream(model)
        },
        Msg::StartPauseMetronome => {
            model.timer_dialog.metronome.start_pause(clocks.audio);
            assert(model@ =~~= before.with_dialog(
                DialogView { metronome: dialog.metronome.start_paused(clocks.audio), ..dialog },
            ));
            stream(model)
        },
        Msg::MetronomeIntervalChanged(text) => {
            model.timer_dialog.metronome.interval = read_count(text.as_str());
            assert(model@ =~~= before.with_dialog(
                DialogView {
                    metronome: Metronome { interval: count_or_one(text@), ..dialog.metronome },
                    ..dialog
                },
            ));
            no_commands()
        },
        Msg::MetronomeStressChanged(text) => {
            model.timer_dialog.metronome.stressed_beat = read_count(text.as_str());
            assert(model@ =~~= before.with_dialog(
                DialogView {
                    metronome: Metronome { stressed_beat: count_or_one(text@), ..dialog.metronome },
                    ..dialog
                },
            ));
            no_commands()
        },
        Msg::ResetTimer => {
            model.timer_dialog.timer.reset(clocks.now);
            assert(model@ =~~= before.with_dialog(
                DialogView { timer: dialog.timer.reset_at(clocks.now), ..dialog },
            ));
            no_commands()
        },
        Msg::TimerTimeChanged(text) => {
            let ghost typed = text@;
            model.timer_dialog.timer.enter(text);
            assert(model@ =~~= before.with_dialog(
                DialogView { timer: dialog.timer.typed(typed), ..dialog },
            ));
            no_commands()
        },
        _ => no_commands(),
    }
}

fn handle_form(model: &mut Model, msg: Msg) -> (commands: Vec<Command>)
    requires
        msg is RepsChanged || msg is TimeChanged || msg is WeightChanged || msg is RPEChanged
            || msg is NotesChanged || msg is EnterTargetValues || msg is EnterPreviousValues
            || msg is ScrollToSection || msg is EditTrainingSession || msg is SaveTrainingSession,
    ensures
        forall|data: DataView, clocks: Clocks|
            final(model)@ == (#[trigger] step(old(model)@, msg@, data, clocks)).model
                && command_views(commands@) == step(old(model)@, msg@, data, clocks).commands,
{
    let ghost before = model@;
    match msg {
        Msg::RepsChanged(s, e, input) => {
            edit_reps(model, s, e, input);
            no_commands()
        },
        Msg::TimeChanged(s, e, input) => {
            edit_time(model, s, e, input);
            no_commands()
        },
        Msg::WeightChanged(s, e, input) => {
            edit_weight(model, s, e, input);
            no_commands()
        },
        Msg::RPEChanged(s, e, input) => {
            edit_rpe(model, s, e, input);
            no_commands()
        },
        Msg::NotesChanged(notes) => {
            let ghost typed = notes@;
            model.form.notes = notes;
            model.form.notes_changed = true;
            assert(model@ =~~= (ModelView {
                form: FormView { notes: typed, notes_changed: true, ..before.form },
                ..before
            }));
            no_commands()
        },
        Msg::EnterTargetValues(s, e) => {
            fill_targets(model, s, e);
            no_commands()
        },
        Msg::EnterPreviousValues(s, e) => {
            fill_previous(model, s, e);
            no_commands()
        },
        Msg::ScrollToSection => {
            let mut commands = no_commands();
            if let Some(guide) = &model.guide {
                push(&mut commands, Command::ScrollIntoView(guide.section_idx));
            }
            assert(command_views(commands@) =~= match before.guide {
                Some(guide) => seq![CommandView::ScrollIntoView(guide.section_idx)],
                None => Seq::empty(),
            });
            commands
        },
        Msg::EditTrainingSession => {
            model.editing = true;
            let mut commands = no_commands();
            push(&mut commands, Command::PushUrl(Route::Edit));
            assert(command_views(commands@) =~= seq![CommandView::PushUrl(Route::Edit)]);
            commands
        },
        Msg::SaveTrainingSession => {
            model.loading = true;
            let mut commands = no_commands();
            push(
                &mut commands,
                Command::Notify(
                    StoreMsg::ModifyTrainingSession(
                        model.training_session_id,
                        Some(model.form.notes.clone()),
                        Some(model.form.to_elements()),
                    ),
                ),
            );
            assert(command_views(commands@) =~= seq![
                CommandView::Notify(
                    StoreMsgView::ModifyTrainingSession(
                        before.training_session_id,
                        Some(before.form.notes),
                        Some(before.form.elements()),
                    ),
                ),
            ]);
            commands
        },
        _ => no_commands(),
    }
}

/// What is to be done when the page is left: the notification is taken
/// down and neither polling task exists any longer.
pub open spec fn parting() -> Seq<CommandView> {
    seq![
        CommandView::CloseNotification,
        CommandView::GuideStream(false),
        CommandView::TimerStream(false),
    ]
}

impl Model {
    /// Gives up the page and returns what is to be done about it.
    pub fn teardown(self) -> (commands: Vec<Command>)
        ensures
            command_views(commands@) == parting(),
    {
        let mut commands = no_commands();
        push(&mut commands, Command::CloseNotification);
        push(&mut commands, Command::GuideStream(false));
        push(&mut commands, Command::TimerStream(false));
        assert(command_views(commands@) =~= parting());
        commands
    }

    /// Whether the model is in order, as every transition leaves it.
    pub fn well_formed(&self) -> (ok: bool)
        ensures
            ok == self@.wf(),
    {
        let instruments = self.timer_dialog.stopwatch.is_active()
            || self.timer_dialog.metronome.is_active() || self.timer_dialog.timer.is_active();
        let guide_in_order = match &self.guide {
            Some(guide) => guide.stream == guide.timer.is_active(),
            None => true,
        };
        self.timer_dialog.metronome.interval >= 1 && self.timer_dialog.metronome.stressed_beat >= 1
            && self.timer_stream == instruments && guide_in_order
    }

    /// Whether the form was touched since it was built.
    pub fn has_unsaved_changes(&self) -> (changed: bool)
        ensures
            changed == self@.form.changed(),
    {
        self.form.changed()
    }
}

/// Takes the page from one state to the next on a message, and returns what
/// is to be done, in order.
pub fn update(msg: Msg, model: &mut Model, data_model: &DataModel, clocks: Clocks) -> (commands:
    Vec<Command>)
    requires
        old(model)@.wf(),
    ensures
        final(model)@.wf(),
        final(model)@ == step(old(model)@, msg@, data_model@, clocks).model,
        command_views(commands@) == step(old(model)@, msg@, data_model@, clocks).commands,
{
    proof {
        lemma_step_keeps_wf(model@, msg@, data_model@, clocks);
    }
    match msg {
        Msg::StartGuidedTrainingSession => start_guide(model, data_model, clocks.now),
        Msg::ContinueGuidedTrainingSession(record) => continue_guide(
            model,
            record,
            data_model,
            clocks.now,
        ),
        Msg::UpdateGuidedTrainingSession => poll_guide(model, clocks),
        Msg::StartPauseGuideTimer => toggle_guide_timer(model, clocks.now),
        Msg::GoToPreviousSection => go_back(model, data_model, clocks.now),
        Msg::GoToNextSection => go_on(model, data_model, clocks.now),
        Msg::DataEvent(event) => handle_event(model, event, data_model, clocks.now),
        Msg::UpdateSMTDialog => poll_dialog(model, clocks),
        Msg::StartPauseTimer => toggle_dialog_timer(model, clocks.now),
        Msg::RepsChanged(..)
        | Msg::TimeChanged(..)
        | Msg::WeightChanged(..)
        | Msg::RPEChanged(..)
        | Msg::NotesChanged(..)
        | Msg::EnterTargetValues(..)
        | Msg::EnterPreviousValues(..)
        | Msg::ScrollToSection
        | Msg::EditTrainingSession
        | Msg::SaveTrainingSession => {
            let ghost told = msg@;
            let commands = handle_form(model, msg);
            assert(model@ == step(old(model)@, told, data_model@, clocks).model);
            commands
        },
        _ => {
            let ghost told = msg@;
            let commands = handle_instrument(model, msg, clocks);
            assert(model@ == step(old(model)@, told, data_model@, clocks).model);
            commands
        },
    }
}

fn names(text: Option<&str>, word: &str) -> (same: bool)
    ensures
        same == (text is Some && text->0@ == word@),
{
    match text {
        Some(given) => String::from_str(given) == String::from_str(word),
        None => false,
    }
}

/// Enters the page: builds the model and returns what is to be done first.
pub fn init(
    id_part: Option<&str>,
    action: Option<&str>,
    data_model: &DataModel,
    now: Instant,
) -> (entered: (Model, Vec<Command>))
    ensures
        entered.0@ == initial(
            match id_part {
                Some(text) => Some(text@),
                None => None,
            },
            match action {
                Some(text) => Some(text@),
                None => None,
            },
            data_model@,
            now,
        ).model,
        command_views(entered.1@) == initial(
            match id_part {
                Some(text) => Some(text@),
                None => None,
            },
            match action {
                Some(text) => Some(text@),
                None => None,
            },
            data_model@,
            now,
        ).commands,
        entered.0@.wf(),
        entered.0@.form.wf(),
{
    let training_session_id = match id_part {
        Some(text) => match parse_u32(text) {
            Some(id) => id,
            None => 0,
        },
        None => 0,
    };
    let beep_volume = data_model.settings.beep_volume;
    let editing = names(action, "edit");
    let guide = if names(action, "guide") {
        Some(Guide::new(beep_volume, now))
    } else {
        None
    };
    let mut timer = Timer::new(beep_volume);
    timer.set(FIRST_TIMER_DURATION, now);
    let mut model = Model {
        training_session_id,
        form: Form::new(),
        guide,
        timer_dialog: SMTDialog {
            visible: false,
            stopwatch: Stopwatch::new(),
            metronome: Metronome::new(beep_volume),
            timer,
        },
        timer_stream: false,
        editing,
        loading: false,
    };
    rebuild_form(&mut model, data_model);
    let mut commands = no_commands();
    if let Some(record) = data_model.ongoing_training_session {
        if record.training_session_id == training_session_id {
            push(&mut commands, Command::SendMsg(Msg::ContinueGuidedTrainingSession(record)));
        }
    }
    proof {
        let expected = initial(
            match id_part {
                Some(text) => Some(text@),
                None => None,
            },
            match action {
                Some(text) => Some(text@),
                None => None,
            },
            data_model@,
            now,
        );
        assert(model@ =~~= expected.model);
        assert(command_views(commands@) =~= expected.commands);
    }
    (model, commands)
}

} // verus!

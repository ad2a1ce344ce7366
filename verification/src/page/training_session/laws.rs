//! What holds of every transition of the training session's page.

use vstd::prelude::*;
use crate::builder::{form_of, lemma_form_of_wf};
use crate::clock::{whole_seconds, Instant};
use crate::decimal::lemma_decimal_round_trip;
use crate::field::{reps_entered, rpe_entered, time_entered, weight_entered};
use crate::form::{lemma_with_row_changed, lemma_with_row_wf, ExerciseFormView, SectionView};
use crate::guide::GuideView;
use crate::metronome::{lemma_caught_up_keeps_settings, Metronome, LOOKAHEAD};
use crate::page::training_session::{
    at_least_one, metronome_commands, notification_commands, persist_command, save_commands, step,
    Clocks, CommandView, DialogView, ModelView, MsgView, Route,
};
use crate::session::{session_with_id, DataView, Event, OngoingTrainingSession, StoreMsgView};
use crate::text::lemma_nat_text_value;
use crate::timer::TimerState;

verus! {

/// The commands for the polling tasks are the same before and after the
/// tasks are set up.
pub proof fn lemma_streams_keep_commands(model: ModelView)
    ensures
        model.with_streams().stream_commands() == model.stream_commands(),
        model.with_streams().current_section() == model.current_section(),
        model.with_streams().form == model.form,
{
}

/// Moving the guide leaves the form as it is.
pub proof fn lemma_at_section_keeps_form(model: ModelView, section_idx: usize, now: Instant)
    requires
        model.guide is Some,
    ensures
        model.at_section(section_idx, now).form == model.form,
        model.at_section(section_idx, now).guide is Some,
        model.at_section(section_idx, now).guide->0.section_idx == section_idx,
        model.at_section(section_idx, now).guide->0.section_start_time == now,
{
}

/// Setting up the polling tasks brings them in line with the instruments.
pub proof fn lemma_streaming_wf(model: ModelView)
    requires
        model.timer_dialog.metronome.wf(),
    ensures
        model.streaming().model.wf(),
        model.with_streams().wf(),
        model.with_streams().stream_commands() == model.stream_commands(),
{
}

/// Setting the guide's timer anew leaves the dialog as it is.
pub proof fn lemma_recomputed_keeps_dialog(model: ModelView, now: Instant)
    ensures
        model.recomputed(now).timer_dialog == model.timer_dialog,
        model.recomputed(now).form == model.form,
        model.recomputed(now).guide is Some == model.guide is Some,
{
}

proof fn lemma_guide_steps_wf(model: ModelView, data: DataView, clocks: Clocks)
    requires
        model.wf(),
    ensures
        model.guide_started(data, clocks.now).model.wf(),
        model.moved_back(data, clocks.now).model.wf(),
        model.moved_on(data, clocks.now).model.wf(),
        model.guide_timer_toggled(clocks.now).model.wf(),
{
    let now = clocks.now;
    let fresh = model.with_guide(Some(GuideView::fresh(data.settings.beep_volume, now)));
    lemma_recomputed_keeps_dialog(fresh, now);
    lemma_streaming_wf(fresh.recomputed(now));
    if model.guide is Some {
        let guide = model.guide->0;
        if guide.section_idx > 0 {
            let back = model.with_guide(
                Some(
                    GuideView {
                        section_idx: (guide.section_idx - 1) as usize,
                        section_start_time: now,
                        ..guide
                    },
                ),
            );
            lemma_recomputed_keeps_dialog(back, now);
            lemma_streaming_wf(back.recomputed(now));
        }
        let on = model.with_guide(
            Some(
                GuideView {
                    section_idx: (guide.section_idx + 1) as usize,
                    section_start_time: now,
                    ..guide
                },
            ),
        );
        lemma_recomputed_keeps_dialog(on, now);
        lemma_streaming_wf(on.recomputed(now));
        lemma_streaming_wf(model.with_guide(None));
        let timer = if guide.timer.is_active() || guide.timer.time is Some {
            guide.timer.start_paused(now)
        } else {
            guide.timer
        };
        lemma_streaming_wf(model.with_guide(Some(GuideView { timer, ..guide })));
    } else {
        lemma_streaming_wf(model);
    }
}

proof fn lemma_continued_wf(
    model: ModelView,
    record: OngoingTrainingSession,
    data: DataView,
    now: Instant,
)
    requires
        model.wf(),
    ensures
        model.guide_continued(record, data, now).model.wf(),
{
    lemma_streaming_wf(
        model.with_guide(Some(GuideView::resumed(record, data.settings.beep_volume, now))),
    );
}

proof fn lemma_polled_wf(model: ModelView, clocks: Clocks)
    requires
        model.wf(),
    ensures
        model.guide_polled(clocks).model.wf(),
        model.dialog_polled(clocks).model.wf(),
        model.dialog_timer_toggled(clocks.now).model.wf(),
{
    if let Some(now) = clocks.audio {
        lemma_caught_up_keeps_settings(
            model.timer_dialog.metronome,
            now.plus_micros(LOOKAHEAD as int),
        );
    }
    let timer = model.timer_dialog.timer;
    lemma_streaming_wf(
        model.with_dialog(
            DialogView {
                timer: if timer.is_active() || timer.time is Some {
                    timer.start_paused(clocks.now)
                } else {
                    timer
                },
                ..model.timer_dialog
            },
        ),
    );
}

proof fn lemma_event_wf(model: ModelView, event: Event, data: DataView, now: Instant)
    requires
        model.wf(),
    ensures
        model.after_event(event, data, now).model.wf(),
{
    let rebuilt = ModelView {
        form: form_of(session_with_id(data.training_sessions, model.training_session_id), data),
        loading: false,
        ..model
    };
    lemma_recomputed_keeps_dialog(rebuilt, now);
    lemma_streaming_wf(rebuilt.recomputed(now));
    let failed = ModelView { loading: false, ..model };
    lemma_recomputed_keeps_dialog(failed, now);
    lemma_streaming_wf(failed.recomputed(now));
}

proof fn lemma_instrument_steps_wf(model: ModelView, msg: MsgView, data: DataView, clocks: Clocks)
    requires
        model.wf(),
        msg is StartPauseStopwatch || msg is ResetStopwatch || msg is ToggleStopwatch
            || msg is StartMetronome || msg is PauseMetronome || msg is StartPauseMetronome
            || msg is MetronomeIntervalChanged || msg is MetronomeStressChanged || msg is ResetTimer
            || msg is TimerTimeChanged || msg is ShowSMTDialog || msg is CloseSMTDialog,
    ensures
        step(model, msg, data, clocks).model.wf(),
{
    let dialog = model.timer_dialog;
    match msg {
        MsgView::StartPauseStopwatch => {
            lemma_streaming_wf(
                model.with_dialog(
                    DialogView { stopwatch: dialog.stopwatch.start_paused(clocks.now), ..dialog },
                ),
            );
        },
        MsgView::ToggleStopwatch => {
            lemma_streaming_wf(
                model.with_dialog(
                    DialogView { stopwatch: dialog.stopwatch.toggled(clocks.now), ..dialog },
                ),
            );
        },
        MsgView::StartMetronome(interval) => {
            lemma_streaming_wf(
                model.with_dialog(
                    DialogView {
                        metronome: Metronome {
                            interval: at_least_one(interval),
                            stressed_beat: 1,
                            ..dialog.metronome
                        }.started(clocks.audio),
                        ..dialog
                    },
                ),
            );
        },
        MsgView::PauseMetronome => {
            lemma_streaming_wf(
                model.with_dialog(DialogView { metronome: dialog.metronome.paused(), ..dialog }),
            );
        },
        MsgView::StartPauseMetronome => {
            lemma_streaming_wf(
                model.with_dialog(
                    DialogView {
                        metronome: dialog.metronome.start_paused(clocks.audio),
                        ..dialog
                    },
                ),
            );
        },
        _ => {},
    }
}

proof fn lemma_form_steps_wf(model: ModelView, msg: MsgView, data: DataView, clocks: Clocks)
    requires
        model.wf(),
        msg is RepsChanged || msg is TimeChanged || msg is WeightChanged || msg is RPEChanged
            || msg is NotesChanged || msg is EnterTargetValues || msg is EnterPreviousValues
            || msg is ScrollToSection || msg is EditTrainingSession || msg is SaveTrainingSession,
    ensures
        step(model, msg, data, clocks).model.wf(),
{
}

/// Every transition keeps the model in order: the metronome's settings
/// stay at least one, and each polling task exists exactly while something
/// it polls runs.
pub proof fn lemma_step_keeps_wf(model: ModelView, msg: MsgView, data: DataView, clocks: Clocks)
    requires
        model.wf(),
    ensures
        step(model, msg, data, clocks).model.wf(),
{
    match msg {
        MsgView::StartGuidedTrainingSession
        | MsgView::GoToPreviousSection
        | MsgView::GoToNextSection
        | MsgView::StartPauseGuideTimer => {
            lemma_guide_steps_wf(model, data, clocks);
        },
        MsgView::ContinueGuidedTrainingSession(record) => {
            lemma_continued_wf(model, record, data, clocks.now);
        },
        MsgView::UpdateGuidedTrainingSession
        | MsgView::UpdateSMTDialog
        | MsgView::StartPauseTimer => {
            lemma_polled_wf(model, clocks);
        },
        MsgView::DataEvent(event) => {
            lemma_event_wf(model, event, data, clocks.now);
        },
        MsgView::RepsChanged(..)
        | MsgView::TimeChanged(..)
        | MsgView::WeightChanged(..)
        | MsgView::RPEChanged(..)
        | MsgView::NotesChanged(..)
        | MsgView::EnterTargetValues(..)
        | MsgView::EnterPreviousValues(..)
        | MsgView::ScrollToSection
        | MsgView::EditTrainingSession
        | MsgView::SaveTrainingSession => {
            lemma_form_steps_wf(model, msg, data, clocks);
        },
        _ => {
            lemma_instrument_steps_wf(model, msg, data, clocks);
        },
    }
}

/// Whether a message touches the form: it types into a field, fills one
/// in, or changes the notes.
pub open spec fn edits_form(msg: MsgView) -> bool {
    msg is RepsChanged || msg is TimeChanged || msg is WeightChanged || msg is RPEChanged
        || msg is NotesChanged || msg is EnterTargetValues || msg is EnterPreviousValues
}

/// Whether a message has the form built anew from what is stored.
pub open spec fn rebuilds_form(msg: MsgView) -> bool {
    msg matches MsgView::DataEvent(event) && (event is DataChanged
        || event is TrainingSessionModifiedOk)
}

/// A row with its targets or its earlier values filled in is in order.
pub proof fn lemma_filled_row_wf(row: ExerciseFormView)
    ensures
        row.with_targets().wf(),
        row.with_previous().wf(),
        row.with_targets().position == row.position,
        row.with_previous().position == row.position,
        row.changed() ==> row.with_targets().changed() && row.with_previous().changed(),
{
    if let Some(v) = row.target_reps {
        lemma_nat_text_value(v as nat);
    }
    if let Some(v) = row.target_time {
        lemma_nat_text_value(v as nat);
    }
    if let Some(v) = row.target_weight {
        lemma_decimal_round_trip(v);
    }
    if let Some(v) = row.target_rpe {
        lemma_decimal_round_trip(v);
    }
    if let Some(v) = row.prev_reps {
        lemma_nat_text_value(v as nat);
    }
    if let Some(v) = row.prev_time {
        lemma_nat_text_value(v as nat);
    }
    if let Some(v) = row.prev_weight {
        lemma_decimal_round_trip(v);
    }
    if let Some(v) = row.prev_rpe {
        lemma_decimal_round_trip(v);
    }
}

/// Only the messages that touch the form and those that have it built anew
/// change the form.
pub proof fn lemma_other_steps_keep_form(
    model: ModelView,
    msg: MsgView,
    data: DataView,
    clocks: Clocks,
)
    requires
        !edits_form(msg),
        !rebuilds_form(msg),
    ensures
        step(model, msg, data, clocks).model.form == model.form,
{
    match msg {
        MsgView::GoToPreviousSection => {
            if model.guide is Some && model.guide->0.section_idx > 0 {
                lemma_at_section_keeps_form(
                    model,
                    (model.guide->0.section_idx - 1) as usize,
                    clocks.now,
                );
            }
        },
        MsgView::GoToNextSection => {
            if model.guide is Some && !model.at_last_section() {
                lemma_at_section_keeps_form(
                    model,
                    (model.guide->0.section_idx + 1) as usize,
                    clocks.now,
                );
            }
        },
        _ => {},
    }
}

proof fn lemma_edited_row(model: ModelView, msg: MsgView, data: DataView, clocks: Clocks)
    requires
        edits_form(msg),
        !(msg is NotesChanged),
    ensures
        ({
            let (s, e) = place_of(msg);
            let row = row_after(model, msg);
            &&& step(model, msg, data, clocks).model.form == model.form.with_row(
                s as int,
                e as int,
                row,
            )
            &&& model.form.has_row(s as int, e as int) && model.row(s, e).wf() ==> row.wf()
            &&& row.position == model.row(s, e).position
            &&& model.row(s, e).changed() ==> row.changed()
        }),
{
    let (s, e) = place_of(msg);
    lemma_filled_row_wf(model.row(s, e));
}

/// The place of the row that a message touches.
pub open spec fn place_of(msg: MsgView) -> (usize, usize) {
    match msg {
        MsgView::RepsChanged(s, e, _) => (s, e),
        MsgView::TimeChanged(s, e, _) => (s, e),
        MsgView::WeightChanged(s, e, _) => (s, e),
        MsgView::RPEChanged(s, e, _) => (s, e),
        MsgView::EnterTargetValues(s, e) => (s, e),
        MsgView::EnterPreviousValues(s, e) => (s, e),
        _ => (0, 0),
    }
}

/// The row that a message puts in the place of the one it touches.
pub open spec fn row_after(model: ModelView, msg: MsgView) -> ExerciseFormView {
    match msg {
        MsgView::RepsChanged(s, e, input) => ExerciseFormView {
            reps: reps_entered(input),
            ..model.row(s, e)
        },
        MsgView::TimeChanged(s, e, input) => ExerciseFormView {
            time: time_entered(input),
            ..model.row(s, e)
        },
        MsgView::WeightChanged(s, e, input) => ExerciseFormView {
            weight: weight_entered(input),
            ..model.row(s, e)
        },
        MsgView::RPEChanged(s, e, input) => ExerciseFormView {
            rpe: rpe_entered(input),
            ..model.row(s, e)
        },
        MsgView::EnterTargetValues(s, e) => model.row(s, e).with_targets(),
        MsgView::EnterPreviousValues(s, e) => model.row(s, e).with_previous(),
        _ => model.row(0, 0),
    }
}

/// Every transition keeps the form in order: no section of sets is empty,
/// each row knows its place, and each field holds a value exactly when it
/// is valid and not empty.
pub proof fn lemma_step_keeps_form_in_order(
    model: ModelView,
    msg: MsgView,
    data: DataView,
    clocks: Clocks,
)
    requires
        model.form.wf(),
        data.wf(),
    ensures
        step(model, msg, data, clocks).model.form.wf(),
{
    if rebuilds_form(msg) {
        let found = session_with_id(data.training_sessions, model.training_session_id);
        lemma_form_of_wf(found, data);
        let rebuilt = ModelView { form: form_of(found, data), loading: false, ..model };
        lemma_recomputed_keeps_dialog(rebuilt, clocks.now);
    } else if msg is NotesChanged {
        let after = step(model, msg, data, clocks).model.form;
        assert forall|i: int| 0 <= i < after.sections.len() implies (
        #[trigger] after.sections[i]).wf() by {
            assert(model.form.sections[i].wf());
        }
    } else if edits_form(msg) {
        let (s, e) = place_of(msg);
        lemma_edited_row(model, msg, data, clocks);
        if model.form.has_row(s as int, e as int) {
            assert(model.form.sections[s as int].wf());
            assert(model.form.sections[s as int]->exercises[e as int].wf());
            lemma_with_row_wf(model.form, s as int, e as int, row_after(model, msg));
        }
    } else {
        lemma_other_steps_keep_form(model, msg, data, clocks);
    }
}

/// A form that was touched stays touched until it is built anew from what
/// is stored.
pub proof fn lemma_step_keeps_changed(
    model: ModelView,
    msg: MsgView,
    data: DataView,
    clocks: Clocks,
)
    requires
        model.form.changed(),
        !rebuilds_form(msg),
    ensures
        step(model, msg, data, clocks).model.form.changed(),
{
    if msg is NotesChanged {
    } else if edits_form(msg) {
        let (s, e) = place_of(msg);
        lemma_edited_row(model, msg, data, clocks);
        lemma_with_row_changed(model.form, s as int, e as int, row_after(model, msg));
    } else {
        lemma_other_steps_keep_form(model, msg, data, clocks);
    }
}

/// Whether every message to the store comes before every notification
/// that is shown.
pub open spec fn store_before_notification(commands: Seq<CommandView>) -> bool {
    forall|i: int, j: int|
        0 <= i < commands.len() && 0 <= j < commands.len() && (#[trigger] commands[i]) is Notify
            && (#[trigger] commands[j]) is ShowNotification ==> i < j
}

/// Whether none of the commands shows a notification.
pub open spec fn shows_nothing(commands: Seq<CommandView>) -> bool {
    forall|i: int| 0 <= i < commands.len() ==> !((#[trigger] commands[i]) is ShowNotification)
}

/// Whether none of the commands tells the store anything.
pub open spec fn tells_nothing(commands: Seq<CommandView>) -> bool {
    forall|i: int| 0 <= i < commands.len() ==> !((#[trigger] commands[i]) is Notify)
}

proof fn lemma_shows_nothing_joined(a: Seq<CommandView>, b: Seq<CommandView>)
    requires
        shows_nothing(a),
        shows_nothing(b),
    ensures
        shows_nothing(a + b),
{
    assert forall|i: int| 0 <= i < (a + b).len() implies !((#[trigger] (a + b)[i])
        is ShowNotification) by {
        if i < a.len() {
            assert((a + b)[i] == a[i]);
        } else {
            assert((a + b)[i] == b[i - a.len()]);
        }
    }
}

proof fn lemma_tells_nothing_joined(a: Seq<CommandView>, b: Seq<CommandView>)
    requires
        tells_nothing(a),
        tells_nothing(b),
    ensures
        tells_nothing(a + b),
{
    assert forall|i: int| 0 <= i < (a + b).len() implies !((#[trigger] (a + b)[i]) is Notify) by {
        if i < a.len() {
            assert((a + b)[i] == a[i]);
        } else {
            assert((a + b)[i] == b[i - a.len()]);
        }
    }
}

proof fn lemma_ordered_joined(a: Seq<CommandView>, b: Seq<CommandView>)
    requires
        shows_nothing(a),
        tells_nothing(b),
    ensures
        store_before_notification(a + b),
{
    let all = a + b;
    assert forall|i: int, j: int|
        0 <= i < all.len() && 0 <= j < all.len() && (#[trigger] all[i]) is Notify && (
        #[trigger] all[j]) is ShowNotification implies i < j by {
        if i >= a.len() {
            assert(all[i] == b[i - a.len()]);
        }
        if j < a.len() {
            assert(all[j] == a[j]);
        }
    }
}

proof fn lemma_quiet_parts(model: ModelView, follow: bool, section: Option<SectionView>)
    ensures
        shows_nothing(model.stream_commands()),
        shows_nothing(metronome_commands(follow, section)),
        tells_nothing(notification_commands(section)),
        tells_nothing(save_commands(model.form)),
{
}

/// When guided mode starts, the store is told of the guide's state before
/// the section is announced.
pub proof fn lemma_start_tells_store_first(model: ModelView, data: DataView, now: Instant)
    ensures
        store_before_notification(model.guide_started(data, now).commands),
{
    let follow = data.settings.automatic_metronome;
    let started = model.guide_started(data, now);
    let section = started.model.current_section();
    lemma_quiet_parts(started.model, follow, section);
    let told = seq![
        CommandView::Notify(StoreMsgView::StartTrainingSession(model.training_session_id)),
    ];
    let kept = seq![persist_command(started.model.guide->0)];
    let gone = seq![CommandView::PushUrl(Route::Guide)];
    let a1 = started.model.stream_commands() + told;
    lemma_shows_nothing_joined(started.model.stream_commands(), told);
    let a2 = a1 + metronome_commands(follow, section);
    lemma_shows_nothing_joined(a1, metronome_commands(follow, section));
    let head = a2 + kept;
    lemma_shows_nothing_joined(a2, kept);
    let tail = notification_commands(section) + gone;
    lemma_tells_nothing_joined(notification_commands(section), gone);
    lemma_ordered_joined(head, tail);
    assert(started.commands =~= head + tail);
}

/// When the guide goes on, the store is told of the guide's state before
/// the section is announced.
pub proof fn lemma_next_tells_store_first(model: ModelView, data: DataView, now: Instant)
    ensures
        store_before_notification(model.moved_on(data, now).commands),
{
    let follow = data.settings.automatic_metronome;
    let moved = model.moved_on(data, now);
    if model.guide is None {
    } else if model.at_last_section() {
        let ended = model.with_guide(None).with_streams();
        lemma_quiet_parts(ended, follow, None);
        let first = seq![
            CommandView::SendMsg(MsgView::PauseMetronome),
            CommandView::Notify(StoreMsgView::EndTrainingSession),
            CommandView::CloseNotification,
        ];
        let render = seq![CommandView::ForceRender];
        let a1 = first + ended.stream_commands();
        lemma_shows_nothing_joined(first, ended.stream_commands());
        let a2 = a1 + render;
        lemma_shows_nothing_joined(a1, render);
        lemma_ordered_joined(a2, save_commands(model.form));
    } else {
        let at = moved.model.current_section();
        lemma_quiet_parts(moved.model, follow, at);
        lemma_quiet_parts(model, follow, at);
        let kept = seq![persist_command(moved.model.guide->0)];
        let a1 = metronome_commands(follow, at) + moved.model.stream_commands();
        lemma_shows_nothing_joined(metronome_commands(follow, at), moved.model.stream_commands());
        let head = a1 + kept;
        lemma_shows_nothing_joined(a1, kept);
        let after = seq![
            CommandView::ForceRender,
            CommandView::SendMsg(MsgView::UpdateGuidedTrainingSession),
            CommandView::SendMsg(MsgView::ScrollToSection),
        ];
        let b1 = notification_commands(at) + after;
        lemma_tells_nothing_joined(notification_commands(at), after);
        let tail = b1 + save_commands(model.form);
        lemma_tells_nothing_joined(b1, save_commands(model.form));
        lemma_ordered_joined(head, tail);
        assert(moved.commands =~= head + tail);
    }
}

proof fn lemma_quiet_is_ordered(commands: Seq<CommandView>)
    requires
        shows_nothing(commands) || tells_nothing(commands),
    ensures
        store_before_notification(commands),
{
}

proof fn lemma_resume_tells_nothing(
    model: ModelView,
    record: OngoingTrainingSession,
    data: DataView,
    now: Instant,
)
    ensures
        tells_nothing(model.guide_continued(record, data, now).commands),
{
    let follow = data.settings.automatic_metronome;
    let resumed = model.guide_continued(record, data, now).model;
    let section = resumed.current_section();
    let last = seq![
        CommandView::ForceRender,
        CommandView::SendMsg(MsgView::ScrollToSection),
        CommandView::PushUrl(Route::Guide),
    ];
    let a1 = metronome_commands(follow, section) + resumed.stream_commands();
    lemma_tells_nothing_joined(metronome_commands(follow, section), resumed.stream_commands());
    let a2 = a1 + notification_commands(section);
    lemma_tells_nothing_joined(a1, notification_commands(section));
    lemma_tells_nothing_joined(a2, last);
    lemma_streams_keep_commands(
        model.with_guide(Some(GuideView::resumed(record, data.settings.beep_volume, now))),
    );
}

proof fn lemma_back_shows_nothing(model: ModelView, data: DataView, now: Instant)
    ensures
        shows_nothing(model.moved_back(data, now).commands),
{
    let follow = data.settings.automatic_metronome;
    if model.guide is Some && model.guide->0.section_idx > 0 {
        let moved = model.moved_back(data, now).model;
        let section = moved.current_section();
        lemma_quiet_parts(moved, follow, section);
        let first = moved.stream_commands() + metronome_commands(follow, section);
        lemma_shows_nothing_joined(moved.stream_commands(), metronome_commands(follow, section));
        let rest = seq![
            persist_command(moved.guide->0),
            CommandView::CloseNotification,
            CommandView::ForceRender,
            CommandView::SendMsg(MsgView::ScrollToSection),
        ];
        lemma_shows_nothing_joined(first, rest);
    }
}

proof fn lemma_polls_show_nothing(model: ModelView, clocks: Clocks)
    ensures
        shows_nothing(model.guide_polled(clocks).commands),
        shows_nothing(model.dialog_polled(clocks).commands),
        shows_nothing(model.guide_timer_toggled(clocks.now).commands),
        shows_nothing(model.dialog_timer_toggled(clocks.now).commands),
{
    let polled = model.guide_polled(clocks).commands;
    assert forall|i: int| 0 <= i < polled.len() implies !((#[trigger] polled[i])
        is ShowNotification) by {}
    let beats = model.dialog_polled(clocks).commands;
    assert forall|i: int| 0 <= i < beats.len() implies !((#[trigger] beats[i])
        is ShowNotification) by {}
}

proof fn lemma_form_steps_show_nothing(
    model: ModelView,
    msg: MsgView,
    data: DataView,
    clocks: Clocks,
)
    requires
        edits_form(msg) || msg is ScrollToSection || msg is EditTrainingSession
            || msg is SaveTrainingSession,
    ensures
        shows_nothing(step(model, msg, data, clocks).commands),
{
}

proof fn lemma_event_shows_nothing(model: ModelView, event: Event, data: DataView, now: Instant)
    ensures
        shows_nothing(model.after_event(event, data, now).commands),
{
}

proof fn lemma_instrument_steps_show_nothing(
    model: ModelView,
    msg: MsgView,
    data: DataView,
    clocks: Clocks,
)
    requires
        msg is StartPauseStopwatch || msg is ResetStopwatch || msg is ToggleStopwatch
            || msg is StartMetronome || msg is PauseMetronome || msg is StartPauseMetronome
            || msg is MetronomeIntervalChanged || msg is MetronomeStressChanged || msg is ResetTimer
            || msg is TimerTimeChanged || msg is ShowSMTDialog || msg is CloseSMTDialog,
    ensures
        shows_nothing(step(model, msg, data, clocks).commands),
{
}

/// Within every transition the store is told before a notification is
/// shown: no message to the store comes after a notification.
pub proof fn lemma_store_told_first(model: ModelView, msg: MsgView, data: DataView, clocks: Clocks)
    ensures
        store_before_notification(step(model, msg, data, clocks).commands),
{
    match msg {
        MsgView::StartGuidedTrainingSession => {
            lemma_start_tells_store_first(model, data, clocks.now);
        },
        MsgView::GoToNextSection => {
            lemma_next_tells_store_first(model, data, clocks.now);
        },
        MsgView::ContinueGuidedTrainingSession(record) => {
            lemma_resume_tells_nothing(model, record, data, clocks.now);
            lemma_quiet_is_ordered(model.guide_continued(record, data, clocks.now).commands);
        },
        MsgView::GoToPreviousSection => {
            lemma_back_shows_nothing(model, data, clocks.now);
            lemma_quiet_is_ordered(model.moved_back(data, clocks.now).commands);
        },
        MsgView::UpdateGuidedTrainingSession => {
            lemma_polls_show_nothing(model, clocks);
            lemma_quiet_is_ordered(model.guide_polled(clocks).commands);
        },
        MsgView::UpdateSMTDialog => {
            lemma_polls_show_nothing(model, clocks);
            lemma_quiet_is_ordered(model.dialog_polled(clocks).commands);
        },
        MsgView::StartPauseGuideTimer => {
            lemma_polls_show_nothing(model, clocks);
            lemma_quiet_is_ordered(model.guide_timer_toggled(clocks.now).commands);
        },
        MsgView::StartPauseTimer => {
            lemma_polls_show_nothing(model, clocks);
            lemma_quiet_is_ordered(model.dialog_timer_toggled(clocks.now).commands);
        },
        MsgView::DataEvent(event) => {
            lemma_event_shows_nothing(model, event, data, clocks.now);
            lemma_quiet_is_ordered(model.after_event(event, data, clocks.now).commands);
        },
        MsgView::RepsChanged(..)
        | MsgView::TimeChanged(..)
        | MsgView::WeightChanged(..)
        | MsgView::RPEChanged(..)
        | MsgView::NotesChanged(..)
        | MsgView::EnterTargetValues(..)
        | MsgView::EnterPreviousValues(..)
        | MsgView::ScrollToSection
        | MsgView::EditTrainingSession
        | MsgView::SaveTrainingSession => {
            lemma_form_steps_show_nothing(model, msg, data, clocks);
            lemma_quiet_is_ordered(step(model, msg, data, clocks).commands);
        },
        _ => {
            lemma_instrument_steps_show_nothing(model, msg, data, clocks);
            lemma_quiet_is_ordered(step(model, msg, data, clocks).commands);
        },
    }
}

/// The guide's index stays one of the form's: going on from a section of
/// the form leads to the next one or ends the guide, never beyond the last
/// section, and going back leads to a section of the form.
pub proof fn lemma_guide_stays_in_range(model: ModelView, data: DataView, now: Instant)
    requires
        model.guide is Some,
        model.guide->0.section_idx < model.form.sections.len() <= usize::MAX,
    ensures
        model.moved_on(data, now).model.guide matches Some(guide) ==> guide.section_idx
            == model.guide->0.section_idx + 1 && guide.section_idx < model.form.sections.len()
            && guide.section_start_time == now,
        model.moved_on(data, now).model.guide is None <==> model.guide->0.section_idx + 1
            == model.form.sections.len(),
        model.moved_on(data, now).model.form == model.form,
        model.moved_back(data, now).model.guide is Some,
        model.moved_back(data, now).model.guide->0.section_idx < model.form.sections.len(),
        model.guide->0.section_idx == 0 ==> model.moved_back(data, now) == model.silently(),
        model.guide->0.section_idx > 0 ==> model.moved_back(data, now).model.guide->0.section_idx
            == model.guide->0.section_idx - 1,
{
    let idx = model.guide->0.section_idx;
    if idx + 1 < model.form.sections.len() {
        lemma_at_section_keeps_form(model, (idx + 1) as usize, now);
    }
    if idx > 0 {
        lemma_at_section_keeps_form(model, (idx - 1) as usize, now);
    }
}

/// A guide that starts on a form with sections stands at the first of
/// them, begun now.
pub proof fn lemma_start_at_first_section(model: ModelView, data: DataView, now: Instant)
    ensures
        model.guide_started(data, now).model.guide is Some,
        model.guide_started(data, now).model.guide->0.section_idx == 0,
        model.guide_started(data, now).model.guide->0.section_start_time == now,
        model.guide_started(data, now).model.form == model.form,
        model.form.sections.len() > 0 ==> model.guide_started(data, now).model.current_section()
            == Some(model.form.sections[0]),
{
}

/// The end of the session is signalled exactly when the guide goes on from
/// the last section, and then once.
pub proof fn lemma_end_signalled_once(model: ModelView, data: DataView, now: Instant)
    requires
        model.guide is Some,
    ensures
        model.at_last_section() ==> model.moved_on(data, now).model.guide is None
            && model.moved_on(data, now).commands[1] == CommandView::Notify(
            StoreMsgView::EndTrainingSession,
        ) && forall|i: int|
            0 <= i < model.moved_on(data, now).commands.len() && i != 1 ==> (
            #[trigger] model.moved_on(data, now).commands[i]) != CommandView::Notify(
                StoreMsgView::EndTrainingSession,
            ),
        !model.at_last_section() ==> forall|i: int|
            0 <= i < model.moved_on(data, now).commands.len() ==> (#[trigger] model.moved_on(
                data,
                now,
            ).commands[i]) != CommandView::Notify(StoreMsgView::EndTrainingSession),
{
    let follow = data.settings.automatic_metronome;
    if model.at_last_section() {
        let ended = model.moved_on(data, now);
        assert forall|i: int| 0 <= i < ended.commands.len() && i != 1 implies (
        #[trigger] ended.commands[i]) != CommandView::Notify(
            StoreMsgView::EndTrainingSession,
        ) by {}
    } else {
        let moved = model.moved_on(data, now);
        let at = moved.model.current_section();
        let first = metronome_commands(follow, at) + moved.model.stream_commands() + seq![
            persist_command(moved.model.guide->0),
        ];
        let rest = notification_commands(at) + seq![
            CommandView::ForceRender,
            CommandView::SendMsg(MsgView::UpdateGuidedTrainingSession),
            CommandView::SendMsg(MsgView::ScrollToSection),
        ] + save_commands(model.form);
        assert(moved.commands =~= first + rest);
        assert forall|i: int| 0 <= i < moved.commands.len() implies (
        #[trigger] moved.commands[i]) != CommandView::Notify(
            StoreMsgView::EndTrainingSession,
        ) by {
            if i < first.len() {
                assert(moved.commands[i] == first[i]);
            } else {
                assert(moved.commands[i] == rest[i - first.len()]);
            }
        }
    }
}

/// A guide that is taken up again from a record whose timer ran shows the
/// seconds that are left to the deadline kept there, whenever the section
/// began, and runs; the polling task for it is asked for.
pub proof fn lemma_resumed_guide_keeps_deadline(
    model: ModelView,
    record: OngoingTrainingSession,
    deadline: Instant,
    data: DataView,
    now: Instant,
)
    requires
        record.timer_state == (TimerState::Active { target_time: deadline }),
    ensures
        model.guide_continued(record, data, now).model.guide is Some,
        model.guide_continued(record, data, now).model.guide->0.section_idx == record.section_idx,
        model.guide_continued(record, data, now).model.guide->0.section_start_time
            == record.section_start_time,
        model.guide_continued(record, data, now).model.guide->0.timer.time == Some(
            whole_seconds(deadline.since(now)) as i64,
        ),
        model.guide_continued(record, data, now).model.guide->0.timer.is_active(),
        model.guide_continued(record, data, now).model.guide->0.stream,
{
}

} // verus!

//! The texts shown for a set and for a section of a guided session.

use vstd::prelude::*;
use vstd::string::*;
use crate::decimal::{decimal_text, Decimal};
use crate::form::{row_views, ExerciseFormView, FormSection, SectionView};
use crate::text::{nat_text, render_u32};

verus! {

/// Two texts joined by a multiplication sign; where one is empty, the other
/// alone.
pub open spec fn joined(first: Seq<char>, second: Seq<char>) -> Seq<char> {
    if first.len() == 0 {
        second
    } else if second.len() == 0 {
        first
    } else {
        first + " \u{d7} "@ + second
    }
}

/// The text of a number of repetitions; empty where there is none.
pub open spec fn reps_part(reps: Option<u32>) -> Seq<char> {
    match reps {
        Some(n) => nat_text(n as nat),
        None => Seq::empty(),
    }
}

/// The text of a duration, as in `30 s`; empty where there is none.
pub open spec fn time_part(time: Option<u32>) -> Seq<char> {
    match time {
        Some(seconds) => nat_text(seconds as nat) + " s"@,
        None => Seq::empty(),
    }
}

/// The text of a weight, as in `72.5 kg`; empty where there is none.
pub open spec fn weight_part(weight: Option<Decimal>) -> Seq<char> {
    match weight {
        Some(w) => decimal_text(w) + " kg"@,
        None => Seq::empty(),
    }
}

/// The text of a rating of perceived exertion, as in ` @ 8.5`; empty where
/// there is none.
pub open spec fn rpe_part(rpe: Option<Decimal>) -> Seq<char> {
    match rpe {
        Some(r) => " @ "@ + decimal_text(r),
        None => Seq::empty(),
    }
}

/// The text of a set: repetitions, duration and weight, those that are
/// there, joined by multiplication signs, and the rating behind them.
pub open spec fn set_text(
    reps: Option<u32>,
    time: Option<u32>,
    weight: Option<Decimal>,
    rpe: Option<Decimal>,
) -> Seq<char> {
    joined(joined(reps_part(reps), time_part(time)), weight_part(weight)) + rpe_part(rpe)
}

fn join(first: String, second: String) -> (text: String)
    ensures
        text@ == joined(first@, second@),
{
    if first.as_str().unicode_len() == 0 {
        second
    } else if second.as_str().unicode_len() == 0 {
        first
    } else {
        let mut text = first;
        text.append(" \u{d7} ");
        text.append(second.as_str());
        text
    }
}

/// Writes a set as one line of text.
pub fn format_set(
    reps: Option<u32>,
    time: Option<u32>,
    weight: Option<Decimal>,
    rpe: Option<Decimal>,
) -> (text: String)
    ensures
        text@ == set_text(reps, time, weight, rpe),
{
    let reps_text = match reps {
        Some(n) => render_u32(n),
        None => String::new(),
    };
    let time_text = match time {
        Some(seconds) => {
            let mut t = render_u32(seconds);
            t.append(" s");
            t
        },
        None => String::new(),
    };
    let weight_text = match weight {
        Some(w) => {
            let mut t = w.render();
            t.append(" kg");
            t
        },
        None => String::new(),
    };
    let mut text = join(join(reps_text, time_text), weight_text);
    if let Some(r) = rpe {
        let rating = r.render();
        text.append(" @ ");
        text.append(rating.as_str());
        assert(text@ =~= set_text(reps, time, weight, rpe));
    } else {
        assert(text@ =~= set_text(reps, time, weight, rpe));
    }
    text
}

/// What is shown to announce a section.
pub struct Notification {
    pub title: String,
    pub body: Option<String>,
}

/// What a `Notification` holds.
pub struct NotificationView {
    pub title: Seq<char>,
    pub body: Option<Seq<char>>,
}

impl View for Notification {
    type V = NotificationView;

    open spec fn view(&self) -> NotificationView {
        NotificationView {
            title: self.title@,
            body: match self.body {
                Some(text) => Some(text@),
                None => None,
            },
        }
    }
}

/// A heading and the line under it, each closed by a line break; nothing
/// where the line is empty.
pub open spec fn headed(heading: Seq<char>, line: Seq<char>) -> Seq<char> {
    if line.len() == 0 {
        Seq::empty()
    } else {
        heading + "\n"@ + line + "\n"@
    }
}

/// The body announcing a set: what was done the time before, if anything,
/// and what is aimed at, if anything.
pub open spec fn set_body(row: ExerciseFormView) -> Seq<char> {
    headed(
        "Previously:"@,
        set_text(row.prev_reps, row.prev_time, row.prev_weight, row.prev_rpe),
    ) + headed(
        "Target:"@,
        set_text(row.target_reps, row.target_time, row.target_weight, row.target_rpe),
    )
}

/// What announces a section: for sets the name of the first exercise with
/// its earlier and aimed-at values, for a rest its duration if it has one.
/// A section of sets without a row announces nothing.
pub open spec fn announcement(section: SectionView) -> Option<NotificationView> {
    match section {
        SectionView::ExerciseSet { exercises } => if exercises.len() > 0 {
            Some(
                NotificationView {
                    title: exercises[0].exercise_name,
                    body: Some(set_body(exercises[0])),
                },
            )
        } else {
            None
        },
        SectionView::Rest { target_time, .. } => Some(
            NotificationView {
                title: "Rest"@,
                body: if target_time > 0 {
                    Some(nat_text(target_time as nat) + " s"@)
                } else {
                    None
                },
            },
        ),
    }
}

fn with_heading(heading: &str, line: String) -> (text: String)
    ensures
        text@ == headed(heading@, line@),
{
    if line.as_str().unicode_len() == 0 {
        String::new()
    } else {
        let mut text = String::from_str(heading);
        text.append("\n");
        text.append(line.as_str());
        text.append("\n");
        text
    }
}

/// Composes the notification that announces a section.
pub fn section_notification(section: &FormSection) -> (notification: Option<Notification>)
    ensures
        match notification {
            Some(n) => announcement(section@) == Some(n@),
            None => announcement(section@) is None,
        },
{
    match section {
        FormSection::ExerciseSet { exercises } => {
            if exercises.len() == 0 {
                return None;
            }
            let exercise = &exercises[0];
            assert(row_views(exercises@)[0] == exercise@);
            let previously = with_heading(
                "Previously:",
                format_set(
                    exercise.prev_reps,
                    exercise.prev_time,
                    exercise.prev_weight,
                    exercise.prev_rpe,
                ),
            );
            let target = with_heading(
                "Target:",
                format_set(
                    exercise.target_reps,
                    exercise.target_time,
                    exercise.target_weight,
                    exercise.target_rpe,
                ),
            );
            let body = previously.concat(target.as_str());
            Some(Notification { title: exercise.exercise_name.clone(), body: Some(body) })
        },
        FormSection::Rest { target_time, .. } => {
            let body = if *target_time > 0 {
                let mut text = render_u32(*target_time);
                text.append(" s");
                Some(text)
            } else {
                None
            };
            Some(Notification { title: String::from_str("Rest"), body })
        },
    }
}

} // verus!

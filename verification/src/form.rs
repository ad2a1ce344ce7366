//! The editable form of a training session: its sets grouped into sections,
//! each exercise with what was done, what is aimed at and what was done the
//! time before.

use vstd::prelude::*;
use vstd::string::*;
use crate::decimal::Decimal;
use crate::field::{count_text, measure_text, FieldView, InputField};
use crate::session::TrainingSessionElement;

verus! {

/// One exercise's row of the form.
pub struct ExerciseForm {
    /// The place of the row within its section.
    pub position: usize,
    pub exercise_id: u32,
    pub exercise_name: String,
    pub reps: InputField<u32>,
    pub time: InputField<u32>,
    pub weight: InputField<Decimal>,
    pub rpe: InputField<Decimal>,
    pub target_reps: Option<u32>,
    pub target_time: Option<u32>,
    pub target_weight: Option<Decimal>,
    pub target_rpe: Option<Decimal>,
    pub prev_reps: Option<u32>,
    pub prev_time: Option<u32>,
    pub prev_weight: Option<Decimal>,
    pub prev_rpe: Option<Decimal>,
    pub automatic: bool,
}

/// What an `ExerciseForm` holds.
#[verifier::ext_equal]
pub struct ExerciseFormView {
    pub position: usize,
    pub exercise_id: u32,
    pub exercise_name: Seq<char>,
    pub reps: FieldView<u32>,
    pub time: FieldView<u32>,
    pub weight: FieldView<Decimal>,
    pub rpe: FieldView<Decimal>,
    pub target_reps: Option<u32>,
    pub target_time: Option<u32>,
    pub target_weight: Option<Decimal>,
    pub target_rpe: Option<Decimal>,
    pub prev_reps: Option<u32>,
    pub prev_time: Option<u32>,
    pub prev_weight: Option<Decimal>,
    pub prev_rpe: Option<Decimal>,
    pub automatic: bool,
}

impl View for ExerciseForm {
    type V = ExerciseFormView;

    open spec fn view(&self) -> ExerciseFormView {
        ExerciseFormView {
            position: self.position,
            exercise_id: self.exercise_id,
            exercise_name: self.exercise_name@,
            reps: self.reps@,
            time: self.time@,
            weight: self.weight@,
            rpe: self.rpe@,
            target_reps: self.target_reps,
            target_time: self.target_time,
            target_weight: self.target_weight,
            target_rpe: self.target_rpe,
            prev_reps: self.prev_reps,
            prev_time: self.prev_time,
            prev_weight: self.prev_weight,
            prev_rpe: self.prev_rpe,
            automatic: self.automatic,
        }
    }
}

impl ExerciseFormView {
    /// Whether one of the four fields was touched.
    pub open spec fn changed(self) -> bool {
        self.reps.changed || self.time.changed || self.weight.changed || self.rpe.changed
    }

    /// Whether all four fields are valid.
    pub open spec fn valid(self) -> bool {
        self.reps.valid && self.time.valid && self.weight.valid && self.rpe.valid
    }

    /// Each field holds a value exactly when it is valid and not empty.
    pub open spec fn wf(self) -> bool {
        self.reps.wf() && self.time.wf() && self.weight.wf() && self.rpe.wf()
    }

    /// The row as an element to store: the values the fields hold, and the
    /// targets.
    pub open spec fn element(self) -> TrainingSessionElement {
        TrainingSessionElement::ExerciseSet {
            exercise_id: self.exercise_id,
            reps: self.reps.parsed,
            time: self.time.parsed,
            weight: self.weight.parsed,
            rpe: self.rpe.parsed,
            target_reps: self.target_reps,
            target_time: self.target_time,
            target_weight: self.target_weight,
            target_rpe: self.target_rpe,
            automatic: self.automatic,
        }
    }

    /// The row with the targets filled into its fields.
    pub open spec fn with_targets(self) -> ExerciseFormView {
        ExerciseFormView {
            reps: self.reps.copied(self.target_reps, count_text(self.target_reps)),
            time: self.time.copied(self.target_time, count_text(self.target_time)),
            weight: self.weight.copied(self.target_weight, measure_text(self.target_weight)),
            rpe: self.rpe.copied(self.target_rpe, measure_text(self.target_rpe)),
            ..self
        }
    }

    /// The row with the values of the time before filled into its fields.
    pub open spec fn with_previous(self) -> ExerciseFormView {
        ExerciseFormView {
            reps: self.reps.copied(self.prev_reps, count_text(self.prev_reps)),
            time: self.time.copied(self.prev_time, count_text(self.prev_time)),
            weight: self.weight.copied(self.prev_weight, measure_text(self.prev_weight)),
            rpe: self.rpe.copied(self.prev_rpe, measure_text(self.prev_rpe)),
            ..self
        }
    }
}

impl ExerciseForm {
    pub fn changed(&self) -> (changed: bool)
        ensures
            changed == self@.changed(),
    {
        self.reps.changed || self.time.changed || self.weight.changed || self.rpe.changed
    }

    pub fn valid(&self) -> (valid: bool)
        ensures
            valid == self@.valid(),
    {
        self.reps.valid && self.time.valid && self.weight.valid && self.rpe.valid
    }

    /// The row as an element to store.
    pub fn to_element(&self) -> (element: TrainingSessionElement)
        ensures
            element == self@.element(),
    {
        TrainingSessionElement::ExerciseSet {
            exercise_id: self.exercise_id,
            reps: self.reps.parsed,
            time: self.time.parsed,
            weight: self.weight.parsed,
            rpe: self.rpe.parsed,
            target_reps: self.target_reps,
            target_time: self.target_time,
            target_weight: self.target_weight,
            target_rpe: self.target_rpe,
            automatic: self.automatic,
        }
    }

    /// Fills the targets into the fields.
    pub fn enter_target_values(&mut self)
        ensures
            final(self)@ == old(self)@.with_targets(),
    {
        self.reps.copy_from(self.target_reps);
        self.time.copy_from(self.target_time);
        self.weight.copy_from(self.target_weight);
        self.rpe.copy_from(self.target_rpe);
    }

    /// Fills the values of the time before into the fields.
    pub fn enter_previous_values(&mut self)
        ensures
            final(self)@ == old(self)@.with_previous(),
    {
        self.reps.copy_from(self.prev_reps);
        self.time.copy_from(self.prev_time);
        self.weight.copy_from(self.prev_weight);
        self.rpe.copy_from(self.prev_rpe);
    }
}

/// A step of the form: one or more sets that belong together, or a rest.
pub enum FormSection {
    ExerciseSet { exercises: Vec<ExerciseForm> },
    Rest { target_time: u32, automatic: bool },
}

/// What a `FormSection` holds.
#[verifier::ext_equal]
pub enum SectionView {
    ExerciseSet { exercises: Seq<ExerciseFormView> },
    Rest { target_time: u32, automatic: bool },
}

/// The rows as what they hold.
pub open spec fn row_views(rows: Seq<ExerciseForm>) -> Seq<ExerciseFormView> {
    Seq::new(rows.len(), |i: int| rows[i]@)
}

impl View for FormSection {
    type V = SectionView;

    open spec fn view(&self) -> SectionView {
        match self {
            FormSection::ExerciseSet { exercises } => SectionView::ExerciseSet {
                exercises: row_views(exercises@),
            },
            FormSection::Rest { target_time, automatic } => SectionView::Rest {
                target_time: *target_time,
                automatic: *automatic,
            },
        }
    }
}

impl SectionView {
    /// A section of sets holds at least one row, and each row knows its
    /// place.
    pub open spec fn wf(self) -> bool {
        match self {
            SectionView::ExerciseSet { exercises } => {
                &&& exercises.len() > 0
                &&& forall|j: int|
                    0 <= j < exercises.len() ==> (#[trigger] exercises[j]).position == j
                        && exercises[j].wf()
            },
            SectionView::Rest { .. } => true,
        }
    }

    pub open spec fn changed(self) -> bool {
        match self {
            SectionView::ExerciseSet { exercises } => exists|j: int|
                0 <= j < exercises.len() && (#[trigger] exercises[j]).changed(),
            SectionView::Rest { .. } => false,
        }
    }

    pub open spec fn valid(self) -> bool {
        match self {
            SectionView::ExerciseSet { exercises } => forall|j: int|
                0 <= j < exercises.len() ==> (#[trigger] exercises[j]).valid(),
            SectionView::Rest { .. } => true,
        }
    }

    /// The elements to store for the section: one for each row, or the
    /// rest, whose time to aim at is absent where it is zero.
    pub open spec fn elements(self) -> Seq<TrainingSessionElement> {
        match self {
            SectionView::ExerciseSet { exercises } => Seq::new(
                exercises.len(),
                |j: int| exercises[j].element(),
            ),
            SectionView::Rest { target_time, automatic } => seq![
                TrainingSessionElement::Rest {
                    target_time: if target_time > 0 {
                        Some(target_time)
                    } else {
                        None
                    },
                    automatic,
                },
            ],
        }
    }
}

/// The form of a training session.
pub struct Form {
    pub notes: String,
    pub notes_changed: bool,
    pub sections: Vec<FormSection>,
}

/// What a `Form` holds.
#[verifier::ext_equal]
pub struct FormView {
    pub notes: Seq<char>,
    pub notes_changed: bool,
    pub sections: Seq<SectionView>,
}

/// The sections as what they hold.
pub open spec fn section_views(sections: Seq<FormSection>) -> Seq<SectionView> {
    Seq::new(sections.len(), |i: int| sections[i]@)
}

impl View for Form {
    type V = FormView;

    open spec fn view(&self) -> FormView {
        FormView {
            notes: self.notes@,
            notes_changed: self.notes_changed,
            sections: section_views(self.sections@),
        }
    }
}

/// The elements to store for the first `n` of the sections, in order.
pub open spec fn elements_of(sections: Seq<SectionView>, n: int) -> Seq<TrainingSessionElement>
    decreases n,
{
    if n <= 0 {
        Seq::empty()
    } else {
        elements_of(sections, n - 1) + sections[n - 1].elements()
    }
}

impl FormView {
    /// The form without a session.
    pub open spec fn blank() -> FormView {
        FormView { notes: Seq::empty(), notes_changed: false, sections: Seq::empty() }
    }

    pub open spec fn wf(self) -> bool {
        forall|i: int| 0 <= i < self.sections.len() ==> (#[trigger] self.sections[i]).wf()
    }

    /// Whether the notes or any field of any row was touched.
    pub open spec fn changed(self) -> bool {
        self.notes_changed || exists|i: int|
            0 <= i < self.sections.len() && (#[trigger] self.sections[i]).changed()
    }

    /// Whether every field of every row is valid.
    pub open spec fn valid(self) -> bool {
        forall|i: int| 0 <= i < self.sections.len() ==> (#[trigger] self.sections[i]).valid()
    }

    /// The elements to store for the form.
    pub open spec fn elements(self) -> Seq<TrainingSessionElement> {
        elements_of(self.sections, self.sections.len() as int)
    }

    /// Whether the form has a row at place `exercise_idx` of the section
    /// `section_idx`.
    pub open spec fn has_row(self, section_idx: int, exercise_idx: int) -> bool {
        &&& 0 <= section_idx < self.sections.len()
        &&& self.sections[section_idx] is ExerciseSet
        &&& 0 <= exercise_idx < self.sections[section_idx]->exercises.len()
    }

    /// The row at place `exercise_idx` of the section `section_idx`.
    pub open spec fn row(self, section_idx: int, exercise_idx: int) -> ExerciseFormView {
        self.sections[section_idx]->exercises[exercise_idx]
    }

    /// The form with the row at place `exercise_idx` of the section
    /// `section_idx` replaced by `row`; the same form where it has no such
    /// row.
    pub open spec fn with_row(
        self,
        section_idx: int,
        exercise_idx: int,
        row: ExerciseFormView,
    ) -> FormView {
        if self.has_row(section_idx, exercise_idx) {
            FormView {
                sections: self.sections.update(
                    section_idx,
                    SectionView::ExerciseSet {
                        exercises: self.sections[section_idx]->exercises.update(exercise_idx, row),
                    },
                ),
                ..self
            }
        } else {
            self
        }
    }
}

/// Replacing a row by one that is in order and knows its place keeps the
/// form in order.
pub proof fn lemma_with_row_wf(form: FormView, s: int, e: int, row: ExerciseFormView)
    requires
        form.wf(),
        row.wf(),
        row.position == e,
    ensures
        form.with_row(s, e, row).wf(),
{
    let after = form.with_row(s, e, row);
    assert forall|i: int| 0 <= i < after.sections.len() implies (#[trigger] after.sections[i]).wf() by {
        assert(form.sections[i].wf());
        if form.has_row(s, e) && i == s {
            let rows = after.sections[i]->exercises;
            assert forall|j: int| 0 <= j < rows.len() implies (#[trigger] rows[j]).position == j
                && rows[j].wf() by {
                if j != e {
                    assert(rows[j] == form.sections[i]->exercises[j]);
                }
            }
        }
    }
}

/// A form that was touched stays touched when one of its rows is replaced
/// by a row that is touched if the row before was.
pub proof fn lemma_with_row_changed(form: FormView, s: int, e: int, row: ExerciseFormView)
    requires
        form.changed(),
        form.has_row(s, e) && form.row(s, e).changed() ==> row.changed(),
    ensures
        form.with_row(s, e, row).changed(),
{
    let after = form.with_row(s, e, row);
    if !form.notes_changed && form.has_row(s, e) {
        let i = choose|i: int| 0 <= i < form.sections.len() && (#[trigger] form.sections[i]).changed();
        let rows = form.sections[i]->exercises;
        let j = choose|j: int| 0 <= j < rows.len() && (#[trigger] rows[j]).changed();
        let rows_after = after.sections[i]->exercises;
        if i == s {
            if j == e {
                assert(rows_after[j] == row);
            } else {
                assert(rows_after[j] == rows[j]);
            }
            assert(rows_after[j].changed());
        } else {
            assert(after.sections[i] == form.sections[i]);
        }
        assert(after.sections[i].changed());
    }
}

fn section_changed(section: &FormSection) -> (changed: bool)
    ensures
        changed == section@.changed(),
{
    match section {
        FormSection::ExerciseSet { exercises } => {
            let mut j: usize = 0;
            while j < exercises.len()
                invariant
                    j <= exercises.len(),
                    section@ == (SectionView::ExerciseSet { exercises: row_views(exercises@) }),
                    forall|k: int| 0 <= k < j ==> !(#[trigger] row_views(exercises@)[k]).changed(),
                decreases exercises.len() - j,
            {
                if exercises[j].changed() {
                    let ghost rows = row_views(exercises@);
                    assert(rows[j as int] == exercises@[j as int]@);
                    assert(section@->exercises == rows);
                    return true;
                }
                j = j + 1;
            }
            false
        },
        FormSection::Rest { .. } => false,
    }
}

fn section_valid(section: &FormSection) -> (valid: bool)
    ensures
        valid == section@.valid(),
{
    match section {
        FormSection::ExerciseSet { exercises } => {
            let mut j: usize = 0;
            while j < exercises.len()
                invariant
                    j <= exercises.len(),
                    section@ == (SectionView::ExerciseSet { exercises: row_views(exercises@) }),
                    forall|k: int| 0 <= k < j ==> (#[trigger] row_views(exercises@)[k]).valid(),
                decreases exercises.len() - j,
            {
                if !exercises[j].valid() {
                    let ghost rows = row_views(exercises@);
                    assert(rows[j as int] == exercises@[j as int]@);
                    assert(section@->exercises == rows);
                    return false;
                }
                j = j + 1;
            }
            true
        },
        FormSection::Rest { .. } => true,
    }
}

impl Form {
    /// The form without a session.
    pub fn new() -> (form: Form)
        ensures
            form@ == FormView::blank(),
            form@.wf(),
    {
        let form = Form { notes: String::new(), notes_changed: false, sections: Vec::new() };
        assert(form@.sections =~= Seq::empty());
        form
    }

    pub fn changed(&self) -> (changed: bool)
        ensures
            changed == self@.changed(),
    {
        if self.notes_changed {
            return true;
        }
        let mut i: usize = 0;
        while i < self.sections.len()
            invariant
                i <= self.sections.len(),
                !self.notes_changed,
                forall|k: int| 0 <= k < i ==> !(#[trigger] self@.sections[k]).changed(),
            decreases self.sections.len() - i,
        {
            if section_changed(&self.sections[i]) {
                assert(self@.sections[i as int].changed());
                return true;
            }
            i = i + 1;
        }
        false
    }

    pub fn valid(&self) -> (valid: bool)
        ensures
            valid == self@.valid(),
    {
        let mut i: usize = 0;
        while i < self.sections.len()
            invariant
                i <= self.sections.len(),
                forall|k: int| 0 <= k < i ==> (#[trigger] self@.sections[k]).valid(),
            decreases self.sections.len() - i,
        {
            if !section_valid(&self.sections[i]) {
                assert(!self@.sections[i as int].valid());
                return false;
            }
            i = i + 1;
        }
        true
    }

    /// The elements to store for the form, section by section.
    pub fn to_elements(&self) -> (elements: Vec<TrainingSessionElement>)
        ensures
            elements@ == self@.elements(),
    {
        let mut elements: Vec<TrainingSessionElement> = Vec::new();
        let mut i: usize = 0;
        while i < self.sections.len()
            invariant
                i <= self.sections.len(),
                elements@ == elements_of(self@.sections, i as int),
            decreases self.sections.len() - i,
        {
            let ghost before = elements@;
            match &self.sections[i] {
                FormSection::ExerciseSet { exercises } => {
                    let mut j: usize = 0;
                    while j < exercises.len()
                        invariant
                            j <= exercises.len(),
                            i < self.sections.len(),
                            self@.sections[i as int] == (SectionView::ExerciseSet {
                                exercises: row_views(exercises@),
                            }),
                            elements@ == before + self@.sections[i as int].elements().take(
                                j as int,
                            ),
                        decreases exercises.len() - j,
                    {
                        elements.push(exercises[j].to_element());
                        assert(self@.sections[i as int].elements().take(j + 1)
                            =~= self@.sections[i as int].elements().take(j as int).push(
                            exercises[j as int]@.element(),
                        ));
                        j = j + 1;
                        assert(elements@ =~= before + self@.sections[i as int].elements().take(
                            j as int,
                        ));
                    }
                    assert(self@.sections[i as int].elements().take(j as int)
                        =~= self@.sections[i as int].elements());
                },
                FormSection::Rest { target_time, automatic } => {
                    elements.push(
                        TrainingSessionElement::Rest {
                            target_time: if *target_time > 0 {
                                Some(*target_time)
                            } else {
                                None
                            },
                            automatic: *automatic,
                        },
                    );
                    assert(elements@ =~= before + self@.sections[i as int].elements());
                },
            }
            i = i + 1;
        }
        elements
    }
}

} // verus!

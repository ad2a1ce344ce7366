//! Building the form of a training session from what is stored: finding the
//! session before it, matching its sets to the sets of that one, and
//! grouping the elements into sections.

use vstd::prelude::*;
use vstd::string::*;
use crate::decimal::{lemma_decimal_round_trip, Decimal};
use crate::field::{count_text, measure_text, FieldView, InputField};
use crate::form::{
    elements_of, row_views, section_views, ExerciseForm, ExerciseFormView, Form, FormSection,
    FormView, SectionView,
};
use crate::session::{
    exercise_name, exercise_views, name_of, session_views, DataModel, DataView, ExerciseView,
    SessionView, TrainingSession, TrainingSessionElement,
};
use crate::text::lemma_nat_text_value;

verus! {

/// Whether `candidate` can be the session before `current`: another
/// session, not later, and of the same routine if `current` has one.
pub open spec fn qualifies(candidate: SessionView, current: SessionView) -> bool {
    &&& candidate.id != current.id
    &&& candidate.date.days <= current.date.days
    &&& (current.routine_id is None || candidate.routine_id == current.routine_id)
}

/// Whether the session at place `i` is the one before `current`: of those
/// that qualify the one with the latest date, and of several on that date
/// the last in the collection.
pub open spec fn is_previous(sessions: Seq<SessionView>, current: SessionView, i: int) -> bool {
    &&& 0 <= i < sessions.len()
    &&& qualifies(sessions[i], current)
    &&& forall|j: int|
        0 <= j < sessions.len() && qualifies(#[trigger] sessions[j], current) ==> {
            ||| sessions[j].date.days < sessions[i].date.days
            ||| sessions[j].date.days == sessions[i].date.days && j <= i
        }
}

/// The place of the session before `current`, if there is one.
pub open spec fn previous_index(sessions: Seq<SessionView>, current: SessionView) -> Option<int> {
    if exists|i: int| is_previous(sessions, current, i) {
        Some(choose|i: int| is_previous(sessions, current, i))
    } else {
        None
    }
}

/// Only one session is the one before `current`.
pub proof fn lemma_previous_unique(
    sessions: Seq<SessionView>,
    current: SessionView,
    i: int,
    j: int,
)
    requires
        is_previous(sessions, current, i),
        is_previous(sessions, current, j),
    ensures
        i == j,
{
    assert(qualifies(sessions[i], current));
    assert(qualifies(sessions[j], current));
}

/// Finds the session before `current` among `sessions`.
pub fn previous_session(sessions: &Vec<TrainingSession>, current: &TrainingSession) -> (found:
    Option<usize>)
    ensures
        match found {
            Some(i) => previous_index(session_views(sessions@), current@) == Some(i as int),
            None => previous_index(session_views(sessions@), current@) is None,
        },
{
    let ghost views = session_views(sessions@);
    let mut best: Option<usize> = None;
    let mut k: usize = 0;
    while k < sessions.len()
        invariant
            k <= sessions.len(),
            views == session_views(sessions@),
            match best {
                Some(i) => {
                    &&& i < k
                    &&& qualifies(views[i as int], current@)
                    &&& forall|j: int|
                        0 <= j < k && qualifies(#[trigger] views[j], current@) ==> {
                            ||| views[j].date.days < views[i as int].date.days
                            ||| views[j].date.days == views[i as int].date.days && j <= i
                        }
                },
                None => forall|j: int| 0 <= j < k ==> !qualifies(#[trigger] views[j], current@),
            },
        decreases sessions.len() - k,
    {
        let candidate = &sessions[k];
        assert(views[k as int] == candidate@);
        let same_routine = match current.routine_id {
            None => true,
            Some(routine) => match candidate.routine_id {
                Some(other) => other == routine,
                None => false,
            },
        };
        if candidate.id != current.id && candidate.date.days <= current.date.days && same_routine {
            let later = match best {
                Some(i) => sessions[i].date.days <= candidate.date.days,
                None => true,
            };
            if later {
                best = Some(k);
            }
        }
        k = k + 1;
    }
    proof {
        match best {
            Some(i) => {
                assert(is_previous(views, current@, i as int));
                let other = choose|j: int| is_previous(views, current@, j);
                lemma_previous_unique(views, current@, i as int, other);
            },
            None => {
                assert forall|j: int| !is_previous(views, current@, j) by {
                    if 0 <= j < views.len() {
                        assert(!qualifies(views[j], current@));
                    }
                }
            },
        }
    }
    best
}

/// The sets among the first `n` of the elements, in their order.
pub open spec fn sets_in(elements: Seq<TrainingSessionElement>, n: int) -> Seq<
    TrainingSessionElement,
>
    decreases n,
{
    if n <= 0 {
        Seq::empty()
    } else if elements[n - 1] is ExerciseSet {
        sets_in(elements, n - 1).push(elements[n - 1])
    } else {
        sets_in(elements, n - 1)
    }
}

/// The sets of the session before `current`, in their order; none where
/// there is no such session.
pub open spec fn previous_sets_of(sessions: Seq<SessionView>, current: Option<SessionView>) -> Seq<
    TrainingSessionElement,
> {
    match current {
        Some(session) => match previous_index(sessions, session) {
            Some(i) => sets_in(sessions[i].elements, sessions[i].elements.len() as int),
            None => Seq::empty(),
        },
        None => Seq::empty(),
    }
}

/// Collects the sets of the session before `training_session`.
pub fn previous_sets(training_session: Option<&TrainingSession>, data_model: &DataModel) -> (sets:
    Vec<TrainingSessionElement>)
    ensures
        sets@ == previous_sets_of(
            data_model@.training_sessions,
            match training_session {
                Some(session) => Some(session@),
                None => None,
            },
        ),
{
    let mut sets: Vec<TrainingSessionElement> = Vec::new();
    if let Some(session) = training_session {
        if let Some(i) = previous_session(&data_model.training_sessions, session) {
            let previous = &data_model.training_sessions[i];
            assert(session_views(data_model.training_sessions@)[i as int] == previous@);
            let mut k: usize = 0;
            while k < previous.elements.len()
                invariant
                    k <= previous.elements.len(),
                    sets@ == sets_in(previous.elements@, k as int),
                decreases previous.elements.len() - k,
            {
                let element = previous.elements[k];
                if let TrainingSessionElement::ExerciseSet { .. } = element {
                    sets.push(element);
                }
                k = k + 1;
            }
        }
    }
    sets
}

/// How many of the first `k` elements are sets of the exercise
/// `exercise_id`.
pub open spec fn sets_before(
    elements: Seq<TrainingSessionElement>,
    exercise_id: u32,
    k: int,
) -> nat
    decreases k,
{
    if k <= 0 {
        0
    } else if elements[k - 1].is_set_of(exercise_id) {
        sets_before(elements, exercise_id, k - 1) + 1
    } else {
        sets_before(elements, exercise_id, k - 1)
    }
}

/// Whether the element at place `k` is the set of the exercise
/// `exercise_id` that has `n` sets of that exercise before it.
pub open spec fn is_nth_set(
    elements: Seq<TrainingSessionElement>,
    exercise_id: u32,
    n: nat,
    k: int,
) -> bool {
    &&& 0 <= k < elements.len()
    &&& elements[k].is_set_of(exercise_id)
    &&& sets_before(elements, exercise_id, k) == n
}

/// The set of the exercise `exercise_id` that has `n` sets of that exercise
/// before it, if there are so many.
pub open spec fn nth_set(elements: Seq<TrainingSessionElement>, exercise_id: u32, n: nat) -> Option<
    TrainingSessionElement,
> {
    if exists|k: int| is_nth_set(elements, exercise_id, n, k) {
        Some(elements[choose|k: int| is_nth_set(elements, exercise_id, n, k)])
    } else {
        None
    }
}

/// The count of sets of an exercise grows along the elements.
pub proof fn lemma_sets_before_grows(
    elements: Seq<TrainingSessionElement>,
    exercise_id: u32,
    a: int,
    b: int,
)
    requires
        a <= b,
    ensures
        sets_before(elements, exercise_id, a) <= sets_before(elements, exercise_id, b),
    decreases b - a,
{
    if a < b {
        lemma_sets_before_grows(elements, exercise_id, a, b - 1);
    }
}

/// Counts the sets of the exercise `exercise_id` among the first `k`
/// elements.
pub fn count_sets_before(elements: &Vec<TrainingSessionElement>, exercise_id: u32, k: usize) -> (count:
    usize)
    requires
        k <= elements.len(),
    ensures
        count == sets_before(elements@, exercise_id, k as int),
{
    let mut count: usize = 0;
    let mut i: usize = 0;
    while i < k
        invariant
            i <= k <= elements.len(),
            count <= i,
            count == sets_before(elements@, exercise_id, i as int),
        decreases k - i,
    {
        if let TrainingSessionElement::ExerciseSet { exercise_id: id, .. } = elements[i] {
            if id == exercise_id {
                count = count + 1;
            }
        }
        i = i + 1;
    }
    count
}

/// Finds the set of the exercise `exercise_id` that has `n` sets of that
/// exercise before it.
pub fn find_nth_set(elements: &Vec<TrainingSessionElement>, exercise_id: u32, n: usize) -> (found:
    Option<TrainingSessionElement>)
    ensures
        found == nth_set(elements@, exercise_id, n as nat),
{
    let mut count: usize = 0;
    let mut k: usize = 0;
    while k < elements.len()
        invariant
            k <= elements.len(),
            count <= n,
            count <= k,
            count == sets_before(elements@, exercise_id, k as int),
            forall|j: int|
                0 <= j < k && (#[trigger] elements@[j]).is_set_of(exercise_id) ==> sets_before(
                    elements@,
                    exercise_id,
                    j,
                ) < n,
        decreases elements.len() - k,
    {
        let element = elements[k];
        if let TrainingSessionElement::ExerciseSet { exercise_id: id, .. } = element {
            if id == exercise_id {
                if count == n {
                    proof {
                        assert(is_nth_set(elements@, exercise_id, n as nat, k as int));
                        let other = choose|j: int| is_nth_set(elements@, exercise_id, n as nat, j);
                        if other < k {
                            assert(elements@[other].is_set_of(exercise_id));
                        } else if other > k {
                            lemma_sets_before_grows(elements@, exercise_id, k + 1, other);
                        }
                    }
                    return Some(element);
                }
                count = count + 1;
            }
        }
        k = k + 1;
    }
    proof {
        assert forall|j: int| !is_nth_set(elements@, exercise_id, n as nat, j) by {
            if 0 <= j < elements@.len() && elements@[j].is_set_of(exercise_id) {
                assert(sets_before(elements@, exercise_id, j) < n);
            }
        }
    }
    None
}

/// The row of the form for a set: its fields show what is recorded, and
/// beside them stand the targets and what `previous`, the matching set of
/// the session before, recorded.
pub open spec fn row_of(
    element: TrainingSessionElement,
    position: usize,
    name: Seq<char>,
    previous: Option<TrainingSessionElement>,
) -> ExerciseFormView {
    ExerciseFormView {
        position,
        exercise_id: element->exercise_id,
        exercise_name: name,
        reps: FieldView::stored(element->reps, count_text(element->reps)),
        time: FieldView::stored(element->time, count_text(element->time)),
        weight: FieldView::stored(element->weight, measure_text(element->weight)),
        rpe: FieldView::stored(element->rpe, measure_text(element->rpe)),
        target_reps: element->target_reps,
        target_time: element->ExerciseSet_target_time,
        target_weight: element->target_weight,
        target_rpe: element->target_rpe,
        prev_reps: match previous {
            Some(TrainingSessionElement::ExerciseSet { reps, .. }) => reps,
            _ => None,
        },
        prev_time: match previous {
            Some(TrainingSessionElement::ExerciseSet { time, .. }) => time,
            _ => None,
        },
        prev_weight: match previous {
            Some(TrainingSessionElement::ExerciseSet { weight, .. }) => weight,
            _ => None,
        },
        prev_rpe: match previous {
            Some(TrainingSessionElement::ExerciseSet { rpe, .. }) => rpe,
            _ => None,
        },
        automatic: element->ExerciseSet_automatic,
    }
}

/// The sections built so far, and the rows of the section of sets that is
/// still open.
#[verifier::ext_equal]
pub struct Grouping {
    pub sections: Seq<SectionView>,
    pub open: Seq<ExerciseFormView>,
}

impl Grouping {
    /// The sections with the open one closed: it is added if it has rows.
    pub open spec fn closed(self) -> Seq<SectionView> {
        if self.open.len() > 0 {
            self.sections.push(SectionView::ExerciseSet { exercises: self.open })
        } else {
            self.sections
        }
    }

    /// The grouping after one more element. A rest closes the open section
    /// and is a section of its own; so is a timed hold; any other set joins
    /// the open section.
    pub open spec fn with_element(
        self,
        element: TrainingSessionElement,
        name: Seq<char>,
        previous: Option<TrainingSessionElement>,
    ) -> Grouping {
        match element {
            TrainingSessionElement::Rest { target_time, automatic } => Grouping {
                sections: self.closed().push(
                    SectionView::Rest {
                        target_time: match target_time {
                            Some(seconds) => seconds,
                            None => 0,
                        },
                        automatic,
                    },
                ),
                open: Seq::empty(),
            },
            TrainingSessionElement::ExerciseSet { .. } => if element.stands_alone() {
                Grouping {
                    sections: self.closed().push(
                        SectionView::ExerciseSet {
                            exercises: seq![row_of(element, 0, name, previous)],
                        },
                    ),
                    open: Seq::empty(),
                }
            } else {
                Grouping {
                    sections: self.sections,
                    open: self.open.push(row_of(element, self.open.len() as usize, name, previous)),
                }
            },
        }
    }

    pub open spec fn wf(self) -> bool {
        &&& forall|i: int| 0 <= i < self.sections.len() ==> (#[trigger] self.sections[i]).wf()
        &&& forall|j: int|
            0 <= j < self.open.len() ==> (#[trigger] self.open[j]).position == j
                && self.open[j].wf()
    }
}

/// The set of the session before that matches the element at place `k`:
/// the one with as many sets of the same exercise before it.
pub open spec fn matching_set(
    elements: Seq<TrainingSessionElement>,
    previous: Seq<TrainingSessionElement>,
    k: int,
) -> Option<TrainingSessionElement> {
    nth_set(
        previous,
        elements[k]->exercise_id,
        sets_before(elements, elements[k]->exercise_id, k),
    )
}

/// The grouping of the first `n` elements.
pub open spec fn grouped(
    elements: Seq<TrainingSessionElement>,
    exercises: Seq<ExerciseView>,
    previous: Seq<TrainingSessionElement>,
    n: int,
) -> Grouping
    decreases n,
{
    if n <= 0 {
        Grouping { sections: Seq::empty(), open: Seq::empty() }
    } else {
        grouped(elements, exercises, previous, n - 1).with_element(
            elements[n - 1],
            name_of(exercises, elements[n - 1]->exercise_id),
            matching_set(elements, previous, n - 1),
        )
    }
}

/// The form of a session: its notes, untouched, and its elements grouped
/// into sections. Without a session the form is blank.
pub open spec fn form_of(session: Option<SessionView>, data: DataView) -> FormView {
    match session {
        Some(stored) => FormView {
            notes: match stored.notes {
                Some(notes) => notes,
                None => Seq::empty(),
            },
            notes_changed: false,
            sections: grouped(
                stored.elements,
                data.exercises,
                previous_sets_of(data.training_sessions, session),
                stored.elements.len() as int,
            ).closed(),
        },
        None => FormView::blank(),
    }
}

/// A row made from a stored set holds a value in each field that shows one.
pub proof fn lemma_row_wf(
    element: TrainingSessionElement,
    position: usize,
    name: Seq<char>,
    previous: Option<TrainingSessionElement>,
)
    requires
        element is ExerciseSet,
    ensures
        row_of(element, position, name, previous).wf(),
        row_of(element, position, name, previous).position == position,
        !row_of(element, position, name, previous).changed(),
        row_of(element, position, name, previous).valid(),
{
    if let Some(v) = element->reps {
        lemma_nat_text_value(v as nat);
    }
    if let Some(v) = element->time {
        lemma_nat_text_value(v as nat);
    }
    if let Some(v) = element->weight {
        lemma_decimal_round_trip(v);
    }
    if let Some(v) = element->rpe {
        lemma_decimal_round_trip(v);
    }
}

/// Adding an element keeps a grouping in order.
pub proof fn lemma_with_element_wf(
    grouping: Grouping,
    element: TrainingSessionElement,
    name: Seq<char>,
    previous: Option<TrainingSessionElement>,
)
    requires
        grouping.wf(),
        grouping.open.len() < usize::MAX,
    ensures
        grouping.with_element(element, name, previous).wf(),
{
    let next = grouping.with_element(element, name, previous);
    match element {
        TrainingSessionElement::Rest { .. } => {},
        TrainingSessionElement::ExerciseSet { .. } => {
            lemma_row_wf(element, 0, name, previous);
            lemma_row_wf(element, grouping.open.len() as usize, name, previous);
        },
    }
    assert forall|i: int| 0 <= i < next.sections.len() implies (#[trigger] next.sections[i]).wf() by {
        if i < grouping.sections.len() {
            assert(next.sections[i] == grouping.sections[i]);
        }
    }
}

/// Only one element is the set of an exercise with a given number of sets
/// of that exercise before it.
pub proof fn lemma_nth_set_unique(
    elements: Seq<TrainingSessionElement>,
    exercise_id: u32,
    n: nat,
    j: int,
    k: int,
)
    requires
        is_nth_set(elements, exercise_id, n, j),
        is_nth_set(elements, exercise_id, n, k),
    ensures
        j == k,
{
    if j < k {
        lemma_sets_before_grows(elements, exercise_id, j + 1, k);
    } else if k < j {
        lemma_sets_before_grows(elements, exercise_id, k + 1, j);
    }
}

/// A set is matched with the set of the session before that has as many
/// sets of the same exercise before it: the first with the first, the
/// second with the second, and so on. A set with more sets of its exercise
/// before it than the session before has in all is matched with none.
pub proof fn lemma_sets_match_by_count(
    elements: Seq<TrainingSessionElement>,
    previous: Seq<TrainingSessionElement>,
    k: int,
    j: int,
)
    requires
        0 <= k < elements.len(),
        elements[k] is ExerciseSet,
    ensures
        0 <= j < previous.len() && previous[j].is_set_of(elements[k]->exercise_id)
            && sets_before(previous, elements[k]->exercise_id, j) == sets_before(
            elements,
            elements[k]->exercise_id,
            k,
        ) ==> matching_set(elements, previous, k) == Some(previous[j]),
        sets_before(previous, elements[k]->exercise_id, previous.len() as int) <= sets_before(
            elements,
            elements[k]->exercise_id,
            k,
        ) ==> matching_set(elements, previous, k) is None,
{
    let id = elements[k]->exercise_id;
    let n = sets_before(elements, id, k);
    if 0 <= j < previous.len() && previous[j].is_set_of(id) && sets_before(previous, id, j) == n {
        assert(is_nth_set(previous, id, n, j));
        let found = choose|i: int| is_nth_set(previous, id, n, i);
        lemma_nth_set_unique(previous, id, n, j, found);
    }
    if sets_before(previous, id, previous.len() as int) <= n {
        assert forall|i: int| !is_nth_set(previous, id, n, i) by {
            if 0 <= i < previous.len() && previous[i].is_set_of(id) {
                lemma_sets_before_grows(previous, id, i + 1, previous.len() as int);
            }
        }
    }
}

/// The row of a set carries what the matching set of the session before
/// recorded, and stores as the set it was made from.
pub proof fn lemma_row_carries_previous(
    element: TrainingSessionElement,
    position: usize,
    name: Seq<char>,
    previous: TrainingSessionElement,
)
    requires
        element is ExerciseSet,
        previous is ExerciseSet,
    ensures
        row_of(element, position, name, Some(previous)).prev_reps == previous->reps,
        row_of(element, position, name, Some(previous)).prev_time == previous->time,
        row_of(element, position, name, Some(previous)).prev_weight == previous->weight,
        row_of(element, position, name, Some(previous)).prev_rpe == previous->rpe,
        row_of(element, position, name, Some(previous)).element() == element,
        row_of(element, position, name, None).element() == element,
        row_of(element, position, name, None).prev_reps is None,
{
}

/// An element as the form stores it again: a rest that aims at zero seconds
/// aims at nothing; every other element is kept.
pub open spec fn kept(element: TrainingSessionElement) -> TrainingSessionElement {
    match element {
        TrainingSessionElement::Rest { target_time: Some(seconds), automatic } => if seconds == 0 {
            TrainingSessionElement::Rest { target_time: None, automatic }
        } else {
            element
        },
        _ => element,
    }
}

/// The elements that the rows of an open section store.
pub open spec fn row_elements(rows: Seq<ExerciseFormView>) -> Seq<TrainingSessionElement> {
    Seq::new(rows.len(), |j: int| rows[j].element())
}

proof fn lemma_elements_of_prefix(sections: Seq<SectionView>, last: SectionView, n: int)
    requires
        0 <= n <= sections.len(),
    ensures
        elements_of(sections.push(last), n) == elements_of(sections, n),
    decreases n,
{
    if n > 0 {
        lemma_elements_of_prefix(sections, last, n - 1);
        assert(sections.push(last)[n - 1] == sections[n - 1]);
    }
}

proof fn lemma_elements_of_push(sections: Seq<SectionView>, last: SectionView)
    ensures
        elements_of(sections.push(last), sections.len() as int + 1) == elements_of(
            sections,
            sections.len() as int,
        ) + last.elements(),
{
    lemma_elements_of_prefix(sections, last, sections.len() as int);
    assert(sections.push(last)[sections.len() as int] == last);
}

proof fn lemma_closed_elements(grouping: Grouping)
    ensures
        elements_of(grouping.closed(), grouping.closed().len() as int) == elements_of(
            grouping.sections,
            grouping.sections.len() as int,
        ) + row_elements(grouping.open),
{
    if grouping.open.len() > 0 {
        let section = SectionView::ExerciseSet { exercises: grouping.open };
        lemma_elements_of_push(grouping.sections, section);
        assert(section.elements() =~= row_elements(grouping.open));
    } else {
        assert(row_elements(grouping.open) =~= Seq::empty());
        assert(elements_of(grouping.sections, grouping.sections.len() as int) + Seq::empty()
            =~= elements_of(grouping.sections, grouping.sections.len() as int));
    }
}

proof fn lemma_grouped_elements(
    elements: Seq<TrainingSessionElement>,
    exercises: Seq<ExerciseView>,
    previous: Seq<TrainingSessionElement>,
    n: int,
)
    requires
        0 <= n <= elements.len(),
    ensures
        elements_of(
            grouped(elements, exercises, previous, n).sections,
            grouped(elements, exercises, previous, n).sections.len() as int,
        ) + row_elements(grouped(elements, exercises, previous, n).open) == Seq::new(
            n as nat,
            |i: int| kept(elements[i]),
        ),
    decreases n,
{
    let after = grouped(elements, exercises, previous, n);
    let stored = Seq::new(n as nat, |i: int| kept(elements[i]));
    if n <= 0 {
        assert(elements_of(after.sections, 0) + row_elements(after.open) =~= stored);
    } else {
        lemma_grouped_elements(elements, exercises, previous, n - 1);
        let before = grouped(elements, exercises, previous, n - 1);
        let earlier = Seq::new((n - 1) as nat, |i: int| kept(elements[i]));
        let element = elements[n - 1];
        let name = name_of(exercises, element->exercise_id);
        let matching = matching_set(elements, previous, n - 1);
        assert(stored =~= earlier.push(kept(element)));
        lemma_closed_elements(before);
        match element {
            TrainingSessionElement::Rest { target_time, automatic } => {
                let rest = SectionView::Rest {
                    target_time: match target_time {
                        Some(seconds) => seconds,
                        None => 0,
                    },
                    automatic,
                };
                lemma_elements_of_push(before.closed(), rest);
                assert(rest.elements() =~= seq![kept(element)]);
                assert(row_elements(after.open) =~= Seq::empty());
                assert(elements_of(after.sections, after.sections.len() as int) + row_elements(
                    after.open,
                ) =~= stored);
            },
            TrainingSessionElement::ExerciseSet { .. } => {
                if element.stands_alone() {
                    let row = row_of(element, 0, name, matching);
                    let alone = SectionView::ExerciseSet { exercises: seq![row] };
                    lemma_elements_of_push(before.closed(), alone);
                    assert(alone.elements() =~= seq![element]);
                    assert(row_elements(after.open) =~= Seq::empty());
                    assert(elements_of(after.sections, after.sections.len() as int)
                        + row_elements(after.open) =~= stored);
                } else {
                    let row = row_of(element, before.open.len() as usize, name, matching);
                    assert(row_elements(after.open) =~= row_elements(before.open).push(element));
                    assert(elements_of(after.sections, after.sections.len() as int)
                        + row_elements(after.open) =~= stored);
                }
            },
        }
    }
}

/// Whether a row is a timed hold: it aims at a time and at no number of
/// repetitions.
pub open spec fn is_hold_row(row: ExerciseFormView) -> bool {
    row.target_time is Some && row.target_reps is None
}

/// Whether a section is one timed hold on its own.
pub open spec fn is_hold(section: SectionView) -> bool {
    section matches SectionView::ExerciseSet { exercises } && exercises.len() == 1 && is_hold_row(
        exercises[0],
    )
}

/// Whether a section holds sets none of which is a timed hold.
pub open spec fn is_plain(section: SectionView) -> bool {
    section matches SectionView::ExerciseSet { exercises } && exercises.len() > 0 && forall|
        j: int,
    |
        0 <= j < exercises.len() ==> !is_hold_row(#[trigger] exercises[j])
}

/// Whether the sections are grouped as far as can be: a timed hold is alone
/// in its section, and no two sections of other sets follow one another,
/// for they would be one.
pub open spec fn well_grouped(sections: Seq<SectionView>) -> bool {
    &&& forall|i: int|
        0 <= i < sections.len() && (#[trigger] sections[i]) is ExerciseSet ==> is_hold(
            sections[i],
        ) || is_plain(sections[i])
    &&& forall|i: int|
        0 <= i && i + 1 < sections.len() && is_plain(#[trigger] sections[i]) ==> !is_plain(
            sections[i + 1],
        )
}

/// What holds of a grouping under way: its sections are grouped as far as
/// can be, the last of them is no section that could take more sets, and
/// no timed hold waits in the open section.
pub open spec fn grouping_in_order(grouping: Grouping) -> bool {
    &&& well_grouped(grouping.sections)
    &&& grouping.sections.len() > 0 ==> !is_plain(grouping.sections.last())
    &&& forall|j: int| 0 <= j < grouping.open.len() ==> !is_hold_row(#[trigger] grouping.open[j])
}

proof fn lemma_push_keeps_grouped(sections: Seq<SectionView>, section: SectionView)
    requires
        well_grouped(sections),
        sections.len() > 0 && is_plain(section) ==> !is_plain(sections.last()),
        section is ExerciseSet ==> is_hold(section) || is_plain(section),
    ensures
        well_grouped(sections.push(section)),
{
    let after = sections.push(section);
    assert forall|i: int| 0 <= i < after.len() && (#[trigger] after[i]) is ExerciseSet implies is_hold(
        after[i],
    ) || is_plain(after[i]) by {
        if i < sections.len() {
            assert(after[i] == sections[i]);
        }
    }
    assert forall|i: int| 0 <= i && i + 1 < after.len() && is_plain(#[trigger] after[i]) implies !is_plain(
        after[i + 1],
    ) by {
        assert(after[i] == sections[i]);
        if i + 1 < sections.len() {
            assert(after[i + 1] == sections[i + 1]);
        }
    }
}

proof fn lemma_closed_keeps_grouped(grouping: Grouping)
    requires
        grouping_in_order(grouping),
    ensures
        well_grouped(grouping.closed()),
        grouping.open.len() > 0 ==> is_plain(grouping.closed().last()),
        grouping.open.len() == 0 ==> grouping.closed() == grouping.sections,
{
    if grouping.open.len() > 0 {
        let section = SectionView::ExerciseSet { exercises: grouping.open };
        assert(is_plain(section));
        lemma_push_keeps_grouped(grouping.sections, section);
    }
}

proof fn lemma_with_element_keeps_grouped(
    grouping: Grouping,
    element: TrainingSessionElement,
    name: Seq<char>,
    previous: Option<TrainingSessionElement>,
)
    requires
        grouping_in_order(grouping),
    ensures
        grouping_in_order(grouping.with_element(element, name, previous)),
{
    let after = grouping.with_element(element, name, previous);
    lemma_closed_keeps_grouped(grouping);
    match element {
        TrainingSessionElement::Rest { target_time, automatic } => {
            let rest = SectionView::Rest {
                target_time: match target_time {
                    Some(seconds) => seconds,
                    None => 0,
                },
                automatic,
            };
            lemma_push_keeps_grouped(grouping.closed(), rest);
            assert(after.sections.last() == rest);
        },
        TrainingSessionElement::ExerciseSet { .. } => {
            if element.stands_alone() {
                let row = row_of(element, 0, name, previous);
                let alone = SectionView::ExerciseSet { exercises: seq![row] };
                assert(is_hold_row(row));
                assert(is_hold(alone));
                assert(!is_plain(alone)) by {
                    assert(alone->exercises[0] == row);
                }
                lemma_push_keeps_grouped(grouping.closed(), alone);
                assert(after.sections.last() == alone);
            } else {
                let row = row_of(element, grouping.open.len() as usize, name, previous);
                assert(!is_hold_row(row));
                assert forall|j: int| 0 <= j < after.open.len() implies !is_hold_row(
                    #[trigger] after.open[j],
                ) by {
                    if j < grouping.open.len() {
                        assert(after.open[j] == grouping.open[j]);
                    }
                }
            }
        },
    }
}

proof fn lemma_grouped_in_order(
    elements: Seq<TrainingSessionElement>,
    exercises: Seq<ExerciseView>,
    previous: Seq<TrainingSessionElement>,
    n: int,
)
    ensures
        grouping_in_order(grouped(elements, exercises, previous, n)),
    decreases n,
{
    if n > 0 {
        lemma_grouped_in_order(elements, exercises, previous, n - 1);
        lemma_with_element_keeps_grouped(
            grouped(elements, exercises, previous, n - 1),
            elements[n - 1],
            name_of(exercises, elements[n - 1]->exercise_id),
            matching_set(elements, previous, n - 1),
        );
    }
}

/// The sections of a form that was built from what is stored are grouped
/// as far as can be: each timed hold is alone in its section, and sets
/// that follow one another without a rest or a timed hold between them
/// share one section.
pub proof fn lemma_form_is_well_grouped(session: Option<SessionView>, data: DataView)
    ensures
        well_grouped(form_of(session, data).sections),
{
    if let Some(stored) = session {
        let previous = previous_sets_of(data.training_sessions, session);
        let n = stored.elements.len() as int;
        lemma_grouped_in_order(stored.elements, data.exercises, previous, n);
        lemma_closed_keeps_grouped(grouped(stored.elements, data.exercises, previous, n));
    }
}

proof fn lemma_grouped_wf(
    elements: Seq<TrainingSessionElement>,
    exercises: Seq<ExerciseView>,
    previous: Seq<TrainingSessionElement>,
    n: int,
)
    requires
        0 <= n <= elements.len() <= usize::MAX,
    ensures
        grouped(elements, exercises, previous, n).wf(),
        grouped(elements, exercises, previous, n).open.len() <= n,
    decreases n,
{
    if n > 0 {
        lemma_grouped_wf(elements, exercises, previous, n - 1);
        lemma_with_element_wf(
            grouped(elements, exercises, previous, n - 1),
            elements[n - 1],
            name_of(exercises, elements[n - 1]->exercise_id),
            matching_set(elements, previous, n - 1),
        );
    }
}

/// A form that was built from what is stored is in order: no section of
/// sets is empty, each row knows its place, and each field holds a value
/// exactly when it is valid and not empty. Nothing in it counts as touched.
pub proof fn lemma_form_of_wf(session: Option<SessionView>, data: DataView)
    requires
        session matches Some(stored) ==> stored.elements.len() <= usize::MAX,
    ensures
        form_of(session, data).wf(),
{
    if let Some(stored) = session {
        let previous = previous_sets_of(data.training_sessions, session);
        let n = stored.elements.len() as int;
        lemma_grouped_wf(stored.elements, data.exercises, previous, n);
        let last = grouped(stored.elements, data.exercises, previous, n);
        let form = form_of(session, data);
        assert forall|i: int| 0 <= i < form.sections.len() implies (#[trigger] form.sections[i]).wf() by {
            if i < last.sections.len() {
                assert(form.sections[i] == last.sections[i]);
            }
        }
    }
}

/// A form that was built from a session and not touched stores the
/// session's elements again, in their order; only a rest that aimed at zero
/// seconds aims at nothing afterwards.
pub proof fn lemma_form_stores_session(session: SessionView, data: DataView)
    ensures
        form_of(Some(session), data).elements() == Seq::new(
            session.elements.len(),
            |i: int| kept(session.elements[i]),
        ),
        !form_of(Some(session), data).notes_changed,
{
    let previous = previous_sets_of(data.training_sessions, Some(session));
    let n = session.elements.len() as int;
    lemma_grouped_elements(session.elements, data.exercises, previous, n);
    lemma_closed_elements(grouped(session.elements, data.exercises, previous, n));
}

fn make_row(
    element: TrainingSessionElement,
    position: usize,
    name: String,
    previous: Option<TrainingSessionElement>,
) -> (row: ExerciseForm)
    requires
        element is ExerciseSet,
    ensures
        row@ == row_of(element, position, name@, previous),
{
    let (prev_reps, prev_time, prev_weight, prev_rpe) = match previous {
        Some(TrainingSessionElement::ExerciseSet { reps, time, weight, rpe, .. }) => (
            reps,
            time,
            weight,
            rpe,
        ),
        _ => (None, None, None, None),
    };
    match element {
        TrainingSessionElement::ExerciseSet {
            exercise_id,
            reps,
            time,
            weight,
            rpe,
            target_reps,
            target_time,
            target_weight,
            target_rpe,
            automatic,
        } => ExerciseForm {
            position,
            exercise_id,
            exercise_name: name,
            reps: InputField::<u32>::stored(reps),
            time: InputField::<u32>::stored(time),
            weight: InputField::<Decimal>::stored(weight),
            rpe: InputField::<Decimal>::stored(rpe),
            target_reps,
            target_time,
            target_weight,
            target_rpe,
            prev_reps,
            prev_time,
            prev_weight,
            prev_rpe,
            automatic,
        },
        TrainingSessionElement::Rest { .. } => ExerciseForm {
            position,
            exercise_id: 0,
            exercise_name: name,
            reps: InputField::default(),
            time: InputField::default(),
            weight: InputField::default(),
            rpe: InputField::default(),
            target_reps: None,
            target_time: None,
            target_weight: None,
            target_rpe: None,
            prev_reps: None,
            prev_time: None,
            prev_weight: None,
            prev_rpe: None,
            automatic: false,
        },
    }
}

/// Builds the form of a stored session, or the blank form where there is
/// none.
pub fn init_form(training_session: Option<&TrainingSession>, data_model: &DataModel) -> (form: Form)
    ensures
        form@ == form_of(
            match training_session {
                Some(session) => Some(session@),
                None => None,
            },
            data_model@,
        ),
        form@.wf(),
{
    let previous = previous_sets(training_session, data_model);
    match training_session {
        Some(session) => {
            let mut sections: Vec<FormSection> = Vec::new();
            let mut exercises: Vec<ExerciseForm> = Vec::new();
            let ghost names = data_model@.exercises;
            let ghost elements = session.elements@;
            assert(section_views(sections@) =~= Seq::empty());
            assert(row_views(exercises@) =~= Seq::empty());
            let mut k: usize = 0;
            while k < session.elements.len()
                invariant
                    k <= session.elements.len(),
                    elements == session.elements@,
                    names == exercise_views(data_model.exercises@),
                    exercises.len() <= k,
                    section_views(sections@) == grouped(
                        elements,
                        names,
                        previous@,
                        k as int,
                    ).sections,
                    row_views(exercises@) == grouped(elements, names, previous@, k as int).open,
                    grouped(elements, names, previous@, k as int).wf(),
                decreases session.elements.len() - k,
            {
                let ghost before = grouped(elements, names, previous@, k as int);
                let ghost old_sections = sections@;
                let ghost old_rows = exercises@;
                let element = session.elements[k];
                proof {
                    lemma_with_element_wf(
                        before,
                        element,
                        name_of(names, element->exercise_id),
                        matching_set(elements, previous@, k as int),
                    );
                }
                match element {
                    TrainingSessionElement::ExerciseSet {
                        exercise_id,
                        target_reps,
                        target_time,
                        ..
                    } => {
                        let cursor = count_sets_before(&session.elements, exercise_id, k);
                        let matching = find_nth_set(&previous, exercise_id, cursor);
                        let name = exercise_name(&data_model.exercises, exercise_id);
                        if target_time.is_some() && target_reps.is_none() {
                            if exercises.len() > 0 {
                                sections.push(FormSection::ExerciseSet { exercises });
                                exercises = Vec::new();
                            }
                            let mut alone: Vec<ExerciseForm> = Vec::new();
                            alone.push(make_row(element, 0, name, matching));
                            assert(row_views(alone@) =~= seq![
                                row_of(
                                    element,
                                    0,
                                    name_of(names, exercise_id),
                                    matching_set(elements, previous@, k as int),
                                ),
                            ]);
                            sections.push(FormSection::ExerciseSet { exercises: alone });
                            assert(section_views(sections@) =~= before.with_element(
                                element,
                                name_of(names, exercise_id),
                                matching_set(elements, previous@, k as int),
                            ).sections);
                            assert(row_views(exercises@) =~= Seq::empty());
                        } else {
                            let position = exercises.len();
                            exercises.push(make_row(element, position, name, matching));
                            assert(row_views(exercises@) =~= before.with_element(
                                element,
                                name_of(names, exercise_id),
                                matching_set(elements, previous@, k as int),
                            ).open);
                        }
                    },
                    TrainingSessionElement::Rest { target_time, automatic } => {
                        if exercises.len() > 0 {
                            sections.push(FormSection::ExerciseSet { exercises });
                            exercises = Vec::new();
                        }
                        sections.push(
                            FormSection::Rest {
                                target_time: match target_time {
                                    Some(seconds) => seconds,
                                    None => 0,
                                },
                                automatic,
                            },
                        );
                        assert(section_views(sections@) =~= before.with_element(
                            element,
                            name_of(names, element->exercise_id),
                            matching_set(elements, previous@, k as int),
                        ).sections);
                        assert(row_views(exercises@) =~= Seq::empty());
                    },
                }
                k = k + 1;
            }
            let ghost last = grouped(elements, names, previous@, k as int);
            if exercises.len() > 0 {
                sections.push(FormSection::ExerciseSet { exercises });
            }
            assert(section_views(sections@) =~= last.closed());
            let notes = match &session.notes {
                Some(text) => text.clone(),
                None => String::new(),
            };
            let form = Form { notes, notes_changed: false, sections };
            proof {
                assert forall|i: int| 0 <= i < form@.sections.len() implies (
                #[trigger] form@.sections[i]).wf() by {
                    if i < last.sections.len() {
                        assert(form@.sections[i] == last.sections[i]);
                    }
                }
            }
            form
        },
        None => Form::new(),
    }
}

} // verus!

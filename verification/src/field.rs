//! An editable value: the text as typed, what it was read as, whether it is
//! acceptable, and whether it was touched since the form was built.

use vstd::prelude::*;
use vstd::string::*;
use crate::decimal::{decimal_of_text, decimal_text, lemma_decimal_round_trip, Decimal};
use crate::text::{lemma_nat_text_value, lemma_unsigned_round_trip, nat_text, parse_u32, render_u32, u32_of_text};

verus! {

/// Repetitions and seconds are accepted below this number.
pub const COUNT_LIMIT: u32 = 1000;

/// Weights are accepted below this number of tenths.
pub const WEIGHT_LIMIT: u32 = 10_000;

/// The highest rating of perceived exertion, in tenths.
pub const RPE_MAX: u32 = 100;

/// Ratings of perceived exertion are multiples of this number of tenths.
pub const RPE_STEP: u32 = 5;

/// Whether a number of repetitions is acceptable: positive and not huge.
pub open spec fn reps_in_domain(reps: u32) -> bool {
    0 < reps < COUNT_LIMIT
}

/// Whether a duration in seconds is acceptable: positive and not huge.
pub open spec fn time_in_domain(seconds: u32) -> bool {
    0 < seconds < COUNT_LIMIT
}

/// Whether a weight is acceptable: below the limit.
pub open spec fn weight_in_domain(weight: Decimal) -> bool {
    weight.tenths < WEIGHT_LIMIT
}

/// Whether a rating of perceived exertion is acceptable: a whole or half
/// number up to ten.
pub open spec fn rpe_in_domain(rpe: Decimal) -> bool {
    rpe.tenths <= RPE_MAX && rpe.tenths % RPE_STEP == 0
}

pub fn valid_reps(reps: u32) -> (ok: bool)
    ensures
        ok == reps_in_domain(reps),
{
    reps > 0 && reps < COUNT_LIMIT
}

pub fn valid_time(seconds: u32) -> (ok: bool)
    ensures
        ok == time_in_domain(seconds),
{
    seconds > 0 && seconds < COUNT_LIMIT
}

pub fn valid_weight(weight: Decimal) -> (ok: bool)
    ensures
        ok == weight_in_domain(weight),
{
    weight.tenths < WEIGHT_LIMIT
}

pub fn valid_rpe(rpe: Decimal) -> (ok: bool)
    ensures
        ok == rpe_in_domain(rpe),
{
    rpe.tenths <= RPE_MAX && rpe.tenths % RPE_STEP == 0
}

/// The text of an optional count: empty where there is none.
pub open spec fn count_text(value: Option<u32>) -> Seq<char> {
    match value {
        Some(v) => nat_text(v as nat),
        None => Seq::empty(),
    }
}

/// The text of an optional decimal: empty where there is none.
pub open spec fn measure_text(value: Option<Decimal>) -> Seq<char> {
    match value {
        Some(v) => decimal_text(v),
        None => Seq::empty(),
    }
}

/// Writes an optional count, nothing for none.
pub fn render_count(value: Option<u32>) -> (text: String)
    ensures
        text@ == count_text(value),
{
    match value {
        Some(v) => render_u32(v),
        None => String::new(),
    }
}

/// Writes an optional decimal, nothing for none.
pub fn render_measure(value: Option<Decimal>) -> (text: String)
    ensures
        text@ == measure_text(value),
{
    match value {
        Some(v) => v.render(),
        None => String::new(),
    }
}

/// An editable value of type `T`.
pub struct InputField<T> {
    /// The text as last typed or filled in, kept even where it is not
    /// acceptable.
    pub input: String,
    pub valid: bool,
    pub parsed: Option<T>,
    /// Whether the field was touched since the form was built.
    pub changed: bool,
}

/// What an `InputField` holds, with its text as a sequence of characters.
pub struct FieldView<T> {
    pub input: Seq<char>,
    pub valid: bool,
    pub parsed: Option<T>,
    pub changed: bool,
}

impl<T> View for InputField<T> {
    type V = FieldView<T>;

    open spec fn view(&self) -> FieldView<T> {
        FieldView {
            input: self.input@,
            valid: self.valid,
            parsed: self.parsed,
            changed: self.changed,
        }
    }
}

impl<T> FieldView<T> {
    /// A field holds a value exactly when it is valid and not empty.
    pub open spec fn wf(self) -> bool {
        self.parsed is Some <==> self.valid && self.input.len() > 0
    }

    /// The untouched empty field.
    pub open spec fn blank() -> FieldView<T> {
        FieldView { input: Seq::empty(), valid: true, parsed: None, changed: false }
    }

    /// The untouched field that shows a stored value, whose text is `text`.
    pub open spec fn stored(value: Option<T>, text: Seq<char>) -> FieldView<T> {
        FieldView { input: text, valid: true, parsed: value, changed: false }
    }

    /// The field after `raw` was typed into it, where `read` is what the
    /// text was read as and `in_domain` says whether that value is
    /// acceptable. A value outside the domain and an unreadable text make
    /// the field invalid; the empty text stands for "not set" and is valid.
    pub open spec fn entered(raw: Seq<char>, read: Option<T>, in_domain: bool) -> FieldView<T> {
        match read {
            Some(v) => FieldView {
                input: raw,
                valid: in_domain,
                parsed: if in_domain {
                    Some(v)
                } else {
                    None
                },
                changed: true,
            },
            None => FieldView { input: raw, valid: raw.len() == 0, parsed: None, changed: true },
        }
    }

    /// The field after `source`, whose text is `text`, was filled in: it
    /// counts as changed if it was so before or held another value.
    pub open spec fn copied(self, source: Option<T>, text: Seq<char>) -> FieldView<T> {
        FieldView {
            input: text,
            valid: true,
            parsed: source,
            changed: self.changed || self.parsed != source,
        }
    }
}

impl<T> Default for InputField<T> {
    fn default() -> (field: Self)
        ensures
            field@ == FieldView::<T>::blank(),
    {
        InputField { input: String::new(), valid: true, parsed: None, changed: false }
    }
}

impl<T> InputField<T> {
    /// The field after `raw` was typed into it, given what the text was read
    /// as and whether that value is acceptable.
    pub fn set_from_input(raw: String, read: Option<T>, in_domain: bool) -> (field: Self)
        ensures
            field@ == FieldView::entered(raw@, read, in_domain),
    {
        match read {
            Some(v) => {
                if in_domain {
                    InputField { input: raw, valid: true, parsed: Some(v), changed: true }
                } else {
                    InputField { input: raw, valid: false, parsed: None, changed: true }
                }
            },
            None => {
                let valid = raw.as_str().unicode_len() == 0;
                InputField { input: raw, valid, parsed: None, changed: true }
            },
        }
    }
}

/// The field after `raw` was typed in as a number of repetitions.
pub open spec fn reps_entered(raw: Seq<char>) -> FieldView<u32> {
    let read = u32_of_text(raw);
    FieldView::entered(raw, read, read is Some && reps_in_domain(read->0))
}

/// The field after `raw` was typed in as a duration in seconds.
pub open spec fn time_entered(raw: Seq<char>) -> FieldView<u32> {
    let read = u32_of_text(raw);
    FieldView::entered(raw, read, read is Some && time_in_domain(read->0))
}

/// The field after `raw` was typed in as a weight.
pub open spec fn weight_entered(raw: Seq<char>) -> FieldView<Decimal> {
    let read = decimal_of_text(raw);
    FieldView::entered(raw, read, read is Some && weight_in_domain(read->0))
}

/// The field after `raw` was typed in as a rating of perceived exertion.
pub open spec fn rpe_entered(raw: Seq<char>) -> FieldView<Decimal> {
    let read = decimal_of_text(raw);
    FieldView::entered(raw, read, read is Some && rpe_in_domain(read->0))
}

impl InputField<u32> {
    /// Reads `raw` as a number of repetitions.
    pub fn reps_from_input(raw: String) -> (field: Self)
        ensures
            field@ == reps_entered(raw@),
    {
        let read = parse_u32(raw.as_str());
        let in_domain = match read {
            Some(v) => valid_reps(v),
            None => false,
        };
        InputField::set_from_input(raw, read, in_domain)
    }

    /// Reads `raw` as a duration in seconds.
    pub fn time_from_input(raw: String) -> (field: Self)
        ensures
            field@ == time_entered(raw@),
    {
        let read = parse_u32(raw.as_str());
        let in_domain = match read {
            Some(v) => valid_time(v),
            None => false,
        };
        InputField::set_from_input(raw, read, in_domain)
    }

    /// The untouched field that shows a stored value.
    pub fn stored(value: Option<u32>) -> (field: Self)
        ensures
            field@ == FieldView::stored(value, count_text(value)),
    {
        InputField { input: render_count(value), valid: true, parsed: value, changed: false }
    }

    /// Fills in `source`, as when a target or an earlier value is taken
    /// over.
    pub fn copy_from(&mut self, source: Option<u32>)
        ensures
            final(self)@ == old(self)@.copied(source, count_text(source)),
    {
        let same = match (self.parsed, source) {
            (Some(a), Some(b)) => a == b,
            (None, None) => true,
            _ => false,
        };
        self.input = render_count(source);
        self.valid = true;
        self.changed = self.changed || !same;
        self.parsed = source;
    }
}

impl InputField<Decimal> {
    /// Reads `raw` as a weight.
    pub fn weight_from_input(raw: String) -> (field: Self)
        ensures
            field@ == weight_entered(raw@),
    {
        let read = Decimal::parse(raw.as_str());
        let in_domain = match read {
            Some(v) => valid_weight(v),
            None => false,
        };
        InputField::set_from_input(raw, read, in_domain)
    }

    /// Reads `raw` as a rating of perceived exertion.
    pub fn rpe_from_input(raw: String) -> (field: Self)
        ensures
            field@ == rpe_entered(raw@),
    {
        let read = Decimal::parse(raw.as_str());
        let in_domain = match read {
            Some(v) => valid_rpe(v),
            None => false,
        };
        InputField::set_from_input(raw, read, in_domain)
    }

    /// The untouched field that shows a stored value.
    pub fn stored(value: Option<Decimal>) -> (field: Self)
        ensures
            field@ == FieldView::stored(value, measure_text(value)),
    {
        InputField { input: render_measure(value), valid: true, parsed: value, changed: false }
    }

    /// Fills in `source`, as when a target or an earlier value is taken
    /// over.
    pub fn copy_from(&mut self, source: Option<Decimal>)
        ensures
            final(self)@ == old(self)@.copied(source, measure_text(source)),
    {
        let same = match (self.parsed, source) {
            (Some(a), Some(b)) => a.tenths == b.tenths,
            (None, None) => true,
            _ => false,
        };
        self.input = render_measure(source);
        self.valid = true;
        self.changed = self.changed || !same;
        self.parsed = source;
    }
}

/// Whatever is typed, the field keeps the text, counts as changed, and holds
/// a value exactly when it is valid and not empty.
pub proof fn lemma_entered_keeps_text<T>(raw: Seq<char>, read: Option<T>, in_domain: bool)
    requires
        read is None || raw.len() > 0,
    ensures
        FieldView::entered(raw, read, in_domain).input == raw,
        FieldView::entered(raw, read, in_domain).changed,
        FieldView::entered(raw, read, in_domain).wf(),
{
}

/// An empty entry is valid and holds no value, whatever the kind of field.
pub proof fn lemma_empty_entry_is_unset()
    ensures
        reps_entered(Seq::empty()) == FieldView::<u32>::entered(Seq::empty(), None, false),
        time_entered(Seq::empty()) == FieldView::<u32>::entered(Seq::empty(), None, false),
        weight_entered(Seq::empty()) == FieldView::<Decimal>::entered(Seq::empty(), None, false),
        rpe_entered(Seq::empty()) == FieldView::<Decimal>::entered(Seq::empty(), None, false),
        FieldView::<u32>::entered(Seq::empty(), None, false).valid,
        FieldView::<u32>::entered(Seq::empty(), None, false).parsed is None,
        FieldView::<Decimal>::entered(Seq::empty(), None, false).valid,
        FieldView::<Decimal>::entered(Seq::empty(), None, false).parsed is None,
{
}

/// Once a field counts as changed, filling it in leaves it so.
pub proof fn lemma_copy_keeps_changed<T>(field: FieldView<T>, source: Option<T>, text: Seq<char>)
    requires
        field.changed,
    ensures
        field.copied(source, text).changed,
{
}

/// Filling a count field with the value it already holds writes the
/// canonical text of that value: typing that text gives the same value
/// again, and two entries that were read as one value are filled alike.
pub proof fn lemma_count_round_trip(field: FieldView<u32>, value: u32)
    requires
        field.parsed == Some(value),
    ensures
        field.copied(field.parsed, count_text(field.parsed)).input == nat_text(value as nat),
        field.copied(field.parsed, count_text(field.parsed)).parsed == Some(value),
        field.copied(field.parsed, count_text(field.parsed)).changed == field.changed,
        field.copied(field.parsed, count_text(field.parsed)).wf(),
        u32_of_text(nat_text(value as nat)) == Some(value),
        reps_in_domain(value) ==> reps_entered(nat_text(value as nat)).parsed == Some(value),
        time_in_domain(value) ==> time_entered(nat_text(value as nat)).parsed == Some(value),
{
    lemma_unsigned_round_trip(value as nat);
    lemma_nat_text_value(value as nat);
}

/// Filling a decimal field with the value it already holds writes the
/// canonical text of that value: typing that text gives the same value
/// again, and two entries that were read as one value are filled alike.
pub proof fn lemma_measure_round_trip(field: FieldView<Decimal>, value: Decimal)
    requires
        field.parsed == Some(value),
    ensures
        field.copied(field.parsed, measure_text(field.parsed)).input == decimal_text(value),
        field.copied(field.parsed, measure_text(field.parsed)).parsed == Some(value),
        field.copied(field.parsed, measure_text(field.parsed)).changed == field.changed,
        field.copied(field.parsed, measure_text(field.parsed)).wf(),
        decimal_of_text(decimal_text(value)) == Some(value),
        weight_in_domain(value) ==> weight_entered(decimal_text(value)).parsed == Some(value),
        rpe_in_domain(value) ==> rpe_entered(decimal_text(value)).parsed == Some(value),
{
    lemma_decimal_round_trip(value);
}

} // verus!

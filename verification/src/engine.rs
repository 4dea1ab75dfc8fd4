//! The validation engine: a record is held against the rule table, field by
//! field and constraint by constraint, and every violation is reported.

use vstd::prelude::*;
use crate::fields::Field;
use crate::rules::{constraint_views, declared_rules, violated, Constraint, ConstraintSpec, RuleModel};

verus! {

/// A decoded input: each of the five fields is absent or holds a text.
#[derive(Debug, PartialEq, Eq)]
pub struct Record {
    pub input_type: Option<String>,
    pub location_id: Option<String>,
    pub category_id: Option<String>,
    pub c_keyword: Option<String>,
    pub b_keyword: Option<String>,
}

/// A record as the contracts see it.
pub struct RecordSpec {
    pub input_type: Option<Seq<char>>,
    pub location_id: Option<Seq<char>>,
    pub category_id: Option<Seq<char>>,
    pub c_keyword: Option<Seq<char>>,
    pub b_keyword: Option<Seq<char>>,
}

impl RecordSpec {
    /// What the record holds for `field`.
    pub open spec fn value(self, field: Field) -> Option<Seq<char>> {
        match field {
            Field::InputType => self.input_type,
            Field::LocationId => self.location_id,
            Field::CategoryId => self.category_id,
            Field::CKeyword => self.c_keyword,
            Field::BKeyword => self.b_keyword,
        }
    }
}

/// The characters of an optional text.
pub open spec fn text_of(value: Option<String>) -> Option<Seq<char>> {
    match value {
        Some(text) => Some(text@),
        None => None,
    }
}

impl View for Record {
    type V = RecordSpec;

    open spec fn view(&self) -> RecordSpec {
        RecordSpec {
            input_type: text_of(self.input_type),
            location_id: text_of(self.location_id),
            category_id: text_of(self.category_id),
            c_keyword: text_of(self.c_keyword),
            b_keyword: text_of(self.b_keyword),
        }
    }
}

impl Record {
    /// The record in which every field is absent.
    pub fn empty() -> (record: Record)
        ensures
            record@ == (RecordSpec {
                input_type: None,
                location_id: None,
                category_id: None,
                c_keyword: None,
                b_keyword: None,
            }),
    {
        Record {
            input_type: None,
            location_id: None,
            category_id: None,
            c_keyword: None,
            b_keyword: None,
        }
    }

    /// What the record holds for `field`.
    pub fn value(&self, field: Field) -> (value: &Option<String>)
        ensures
            text_of(*value) == self@.value(field),
    {
        match field {
            Field::InputType => &self.input_type,
            Field::LocationId => &self.location_id,
            Field::CategoryId => &self.category_id,
            Field::CKeyword => &self.c_keyword,
            Field::BKeyword => &self.b_keyword,
        }
    }
}

/// One violation: the name under which the field is shown, and the message
/// of the constraint that the field's text breaks.
#[derive(Debug, PartialEq, Eq)]
pub struct FieldError {
    pub display_field_name: String,
    pub message: String,
}

/// A violation as the contracts see it.
pub struct FieldErrorSpec {
    pub display_field_name: Seq<char>,
    pub message: Seq<char>,
}

impl View for FieldError {
    type V = FieldErrorSpec;

    open spec fn view(&self) -> FieldErrorSpec {
        FieldErrorSpec { display_field_name: self.display_field_name@, message: self.message@ }
    }
}

/// The views of a list of violations.
pub open spec fn error_views(errors: Seq<FieldError>) -> Seq<FieldErrorSpec> {
    errors.map_values(|e: FieldError| e@)
}

/// What validation found.
#[derive(Debug, PartialEq, Eq)]
pub enum ValidationOutcome {
    /// No constraint is violated.
    Valid,
    /// The violations, in the order of evaluation. There is at least one.
    Invalid(Vec<FieldError>),
}

/// An outcome as the contracts see it.
pub enum OutcomeSpec {
    Valid,
    Invalid(Seq<FieldErrorSpec>),
}

impl View for ValidationOutcome {
    type V = OutcomeSpec;

    open spec fn view(&self) -> OutcomeSpec {
        match self {
            ValidationOutcome::Valid => OutcomeSpec::Valid,
            ValidationOutcome::Invalid(errors) => OutcomeSpec::Invalid(error_views(errors@)),
        }
    }
}

/// The test that picks the constraints which `text` breaks.
pub open spec fn broken_by(text: Seq<char>) -> spec_fn(ConstraintSpec) -> bool {
    |c: ConstraintSpec| violated(c, text)
}

/// The violation that is reported for `field` when `c` is broken.
pub open spec fn violation(field: Field, c: ConstraintSpec) -> FieldErrorSpec {
    FieldErrorSpec { display_field_name: field.display_name(), message: c.message }
}

/// The step from a broken constraint of `field` to its violation.
pub open spec fn reported_for(field: Field) -> spec_fn(ConstraintSpec) -> FieldErrorSpec {
    |c: ConstraintSpec| violation(field, c)
}

/// The violations of `rules` by `text`, under the name of `field`: one for
/// each constraint that the text breaks, in the order of the constraints.
pub open spec fn rule_errors(field: Field, rules: Seq<ConstraintSpec>, text: Seq<char>) -> Seq<
    FieldErrorSpec,
> {
    rules.filter(broken_by(text)).map_values(reported_for(field))
}

/// The violations of one field: none where the field is absent, else one for
/// each declared constraint that its text breaks.
pub open spec fn field_errors(field: Field, value: Option<Seq<char>>) -> Seq<FieldErrorSpec> {
    match value {
        None => Seq::empty(),
        Some(text) => rule_errors(field, declared_rules(field), text),
    }
}

/// The violations of a record: those of each field, the fields taken in
/// declaration order.
pub open spec fn record_errors(record: RecordSpec) -> Seq<FieldErrorSpec> {
    field_errors(Field::InputType, record.input_type)
        + field_errors(Field::LocationId, record.location_id)
        + field_errors(Field::CategoryId, record.category_id)
        + field_errors(Field::CKeyword, record.c_keyword)
        + field_errors(Field::BKeyword, record.b_keyword)
}

/// What validation owes for a record.
pub open spec fn outcome(record: RecordSpec) -> OutcomeSpec {
    if record_errors(record).len() == 0 {
        OutcomeSpec::Valid
    } else {
        OutcomeSpec::Invalid(record_errors(record))
    }
}

/// The violations of the first `n` fields of the declaration order.
spec fn errors_through(record: RecordSpec, n: nat) -> Seq<FieldErrorSpec>
    decreases n,
{
    if n == 0 || n > Field::declared().len() {
        Seq::empty()
    } else {
        let field = Field::declared()[n - 1];
        errors_through(record, (n - 1) as nat) + field_errors(field, record.value(field))
    }
}

/// Taking the fields one by one in declaration order gives the violations of
/// the record.
proof fn errors_through_all(record: RecordSpec)
    ensures
        errors_through(record, 5) == record_errors(record),
{
    reveal_with_fuel(errors_through, 6);
    assert(errors_through(record, 0) + field_errors(Field::InputType, record.input_type)
        =~= field_errors(Field::InputType, record.input_type));
}

/// Appends to `errors` the violations of `rules` by `text`, under the name of
/// `field`.
fn check_text(field: Field, rules: &Vec<Constraint>, text: &str, errors: &mut Vec<FieldError>)
    ensures
        error_views(final(errors)@) == error_views(old(errors)@) + rule_errors(
            field,
            constraint_views(rules@),
            text@,
        ),
{
    let ghost specs = constraint_views(rules@);
    let ghost before = error_views(errors@);
    proof {
        reveal(Seq::filter);
        assert(before + rule_errors(field, specs.take(0), text@) =~= before);
    }
    for k in 0..rules.len()
        invariant
            specs == constraint_views(rules@),
            before == error_views(old(errors)@),
            error_views(errors@) == before + rule_errors(field, specs.take(k as int), text@),
    {
        let constraint = &rules[k];
        let ghost c = specs[k as int];
        let ghost earlier = specs.take(k as int);
        proof {
            assert(specs.take(k + 1) =~= earlier.push(c));
            earlier.lemma_filter_push(c, broken_by(text@));
        }
        if !constraint.accepts(text) {
            let ghost held = errors@;
            let error = FieldError {
                display_field_name: field.shown_as().to_owned(),
                message: constraint.message().clone(),
            };
            errors.push(error);
            proof {
                assert(error@ == violation(field, c));
                assert(error_views(errors@) =~= error_views(held).push(error@));
                assert(rule_errors(field, earlier.push(c), text@) =~= rule_errors(
                    field,
                    earlier,
                    text@,
                ).push(violation(field, c)));
            }
        }
    }
    proof {
        assert(specs.take(rules.len() as int) =~= specs);
    }
}

/// The violations of one field of `record`, in the order of the field's
/// constraints. An absent field has none.
pub fn check_field(rules: &RuleModel, record: &Record, field: Field) -> (errors: Vec<FieldError>)
    ensures
        error_views(errors@) == field_errors(field, record@.value(field)),
{
    let mut errors = Vec::new();
    assert(error_views(errors@) =~= Seq::empty());
    match record.value(field) {
        Some(text) => {
            check_text(field, rules.rules_for(field), text.as_str(), &mut errors);
            assert(Seq::<FieldErrorSpec>::empty() + field_errors(field, record@.value(field))
                =~= field_errors(field, record@.value(field)));
        },
        None => {},
    }
    errors
}

/// Holds `record` against the rule table. Every field that is present is
/// tested against every one of its constraints; the violations come in the
/// declaration order of the fields and, within a field, of its constraints.
///
/// A text that breaks both the length and the pattern of its field is
/// reported twice, once for each constraint: an empty `input_type` gives two
/// violations, not one.
pub fn validate_record(rules: &RuleModel, record: &Record) -> (found: ValidationOutcome)
    ensures
        found@ == outcome(record@),
{
    let fields = Field::all();
    let mut errors: Vec<FieldError> = Vec::new();
    assert(error_views(errors@) =~= errors_through(record@, 0));
    for i in 0..fields.len()
        invariant
            fields@ == Field::declared(),
            error_views(errors@) == errors_through(record@, i as nat),
    {
        let field = fields[i];
        match record.value(field) {
            Some(text) => {
                check_text(field, rules.rules_for(field), text.as_str(), &mut errors);
            },
            None => {
                assert(errors_through(record@, i as nat) + Seq::<FieldErrorSpec>::empty()
                    =~= errors_through(record@, i as nat));
            },
        }
    }
    proof {
        errors_through_all(record@);
    }
    if errors.len() == 0 {
        ValidationOutcome::Valid
    } else {
        ValidationOutcome::Invalid(errors)
    }
}

} // verus!

//! The rule table: for each field its constraints, in declaration order, each
//! with the message that is reported when the constraint is violated.

use vstd::prelude::*;
use crate::fields::Field;
use crate::outside::{
    length_within, pattern_compiles, pattern_matches, regex_matches, text_matches, within_bounds,
};

verus! {

/// What a constraint asks of a text.
pub enum Rule {
    /// The number of characters is at least `min` and, where `max` is given,
    /// at most `max`.
    Length { min: u64, max: Option<u64> },
    /// The regular expression written as `pattern` finds a match in the text.
    Pattern { pattern: Seq<char> },
}

/// A constraint as the contracts see it: a rule and its message.
pub struct ConstraintSpec {
    pub rule: Rule,
    pub message: Seq<char>,
}

/// Whether `text` breaks the constraint `c`.
pub open spec fn violated(c: ConstraintSpec, text: Seq<char>) -> bool {
    match c.rule {
        Rule::Length { min, max } => !within_bounds(text.len(), Some(min), max),
        Rule::Pattern { pattern } => !pattern_matches(pattern, text),
    }
}

/// The pattern that `input_type` must match.
pub const TYPE_PATTERN: &'static str = "^[012]$";

/// The pattern that `location_id` must match.
pub const LOCATION_PATTERN: &'static str = "^[1-9]$";

/// Reported where `input_type` is not one character long.
pub const TYPE_LENGTH_MESSAGE: &'static str = "Длина строки должна быть 1 символ";

/// Reported where `input_type` does not match its pattern.
pub const TYPE_PATTERN_MESSAGE: &'static str = "Значение может быть только 0, 1 или 2";

/// Reported where `location_id` is empty or longer than two characters.
pub const LOCATION_LENGTH_MESSAGE: &'static str = "Длина строки не может быть больше 2 символов";

/// Reported where `location_id` does not match its pattern.
pub const LOCATION_PATTERN_MESSAGE: &'static str = "Значение может быть от 1 до 99";

/// Reported where `category_id`, `c_keyword` or `b_keyword` is empty.
pub const MIN_LENGTH_MESSAGE: &'static str = "Длина строки должна быть не меньше 1 символа";

/// The constraints of each field, in declaration order.
pub open spec fn declared_rules(field: Field) -> Seq<ConstraintSpec> {
    match field {
        Field::InputType => seq![
            ConstraintSpec {
                rule: Rule::Length { min: 1, max: Some(1u64) },
                message: TYPE_LENGTH_MESSAGE@,
            },
            ConstraintSpec {
                rule: Rule::Pattern { pattern: TYPE_PATTERN@ },
                message: TYPE_PATTERN_MESSAGE@,
            },
        ],
        Field::LocationId => seq![
            ConstraintSpec {
                rule: Rule::Length { min: 1, max: Some(2u64) },
                message: LOCATION_LENGTH_MESSAGE@,
            },
            ConstraintSpec {
                rule: Rule::Pattern { pattern: LOCATION_PATTERN@ },
                message: LOCATION_PATTERN_MESSAGE@,
            },
        ],
        _ => seq![
            ConstraintSpec {
                rule: Rule::Length { min: 1, max: None },
                message: MIN_LENGTH_MESSAGE@,
            },
        ],
    }
}

/// How a constraint tests a text.
enum Check {
    Length { min: u64, max: Option<u64> },
    Pattern { source: String, regex: regex::Regex },
}

/// One constraint of the table, ready to be evaluated.
pub struct Constraint {
    check: Check,
    message: String,
}

impl View for Constraint {
    type V = ConstraintSpec;

    closed spec fn view(&self) -> ConstraintSpec {
        ConstraintSpec {
            rule: match self.check {
                Check::Length { min, max } => Rule::Length { min, max },
                Check::Pattern { source, regex } => Rule::Pattern { pattern: source@ },
            },
            message: self.message@,
        }
    }
}

/// Why a constraint, or the rule table, could not be built.
#[derive(Debug, PartialEq, Eq)]
pub enum RuleError {
    /// The `regex` crate refused this pattern.
    BadPattern(String),
}

impl Constraint {
    /// A compiled expression answers as the pattern that the constraint shows.
    #[verifier::type_invariant]
    spec fn compiled_from_source(&self) -> bool {
        match self.check {
            Check::Length { min, max } => true,
            Check::Pattern { source, regex } => forall|text: Seq<char>| #[trigger]
                regex_matches(regex, text) == pattern_matches(source@, text),
        }
    }

    /// A length constraint.
    pub fn length(min: u64, max: Option<u64>, message: &str) -> (c: Constraint)
        ensures
            c@ == (ConstraintSpec { rule: Rule::Length { min, max }, message: message@ }),
    {
        Constraint { check: Check::Length { min, max }, message: message.to_owned() }
    }

    /// A pattern constraint. It is made exactly where the `regex` crate
    /// compiles the pattern; where it does not, the error holds the pattern.
    pub fn pattern(pattern: &str, message: &str) -> (c: Result<Constraint, RuleError>)
        ensures
            c is Ok <==> pattern_compiles(pattern@),
            c matches Ok(made) ==> made@ == (ConstraintSpec {
                rule: Rule::Pattern { pattern: pattern@ },
                message: message@,
            }),
            c matches Err(RuleError::BadPattern(refused)) ==> refused@ == pattern@,
    {
        match regex::Regex::new(pattern) {
            Ok(regex) => Ok(
                Constraint {
                    check: Check::Pattern { source: pattern.to_owned(), regex },
                    message: message.to_owned(),
                },
            ),
            Err(_) => Err(RuleError::BadPattern(pattern.to_owned())),
        }
    }

    /// The message that is reported when the constraint is violated.
    pub fn message(&self) -> (message: &String)
        ensures
            message@ == self@.message,
    {
        &self.message
    }

    /// Whether `text` satisfies the constraint.
    pub fn accepts(&self, text: &str) -> (ok: bool)
        ensures
            ok == !violated(self@, text@),
    {
        proof {
            use_type_invariant(self);
        }
        match &self.check {
            Check::Length { min, max } => length_within(text, Some(*min), *max),
            Check::Pattern { source, regex } => text_matches(text, regex),
        }
    }
}

/// The views of a row of constraints.
pub open spec fn constraint_views(row: Seq<Constraint>) -> Seq<ConstraintSpec> {
    row.map_values(|c: Constraint| c@)
}

/// The rule table. It is built once and never changes, and it holds the
/// declared rules and no others.
pub struct RuleModel {
    table: Vec<Vec<Constraint>>,
}

impl RuleModel {
    /// There is one row for each field, in declaration order, and each row
    /// holds the declared constraints of its field.
    #[verifier::type_invariant]
    spec fn holds_declared_rules(&self) -> bool {
        &&& self.table@.len() == 5
        &&& forall|field: Field|
            constraint_views(self.table@[field.position()]@) == #[trigger] declared_rules(field)
    }

    /// Builds the table, compiling the two patterns. It fails only where the
    /// `regex` crate refuses a pattern, and then holds the first pattern that
    /// was refused.
    pub fn new() -> (made: Result<RuleModel, RuleError>)
        ensures
            made is Ok <==> pattern_compiles(TYPE_PATTERN@) && pattern_compiles(LOCATION_PATTERN@),
            made matches Err(RuleError::BadPattern(refused)) ==> refused@ == if pattern_compiles(
                TYPE_PATTERN@,
            ) {
                LOCATION_PATTERN@
            } else {
                TYPE_PATTERN@
            },
    {
        let type_pattern = match Constraint::pattern(TYPE_PATTERN, TYPE_PATTERN_MESSAGE) {
            Ok(c) => c,
            Err(e) => {
                return Err(e);
            },
        };
        let location_pattern = match Constraint::pattern(
            LOCATION_PATTERN,
            LOCATION_PATTERN_MESSAGE,
        ) {
            Ok(c) => c,
            Err(e) => {
                return Err(e);
            },
        };
        let input_type = vec![Constraint::length(1, Some(1), TYPE_LENGTH_MESSAGE), type_pattern];
        let location_id = vec![
            Constraint::length(1, Some(2), LOCATION_LENGTH_MESSAGE),
            location_pattern,
        ];
        let category_id = vec![Constraint::length(1, None, MIN_LENGTH_MESSAGE)];
        let c_keyword = vec![Constraint::length(1, None, MIN_LENGTH_MESSAGE)];
        let b_keyword = vec![Constraint::length(1, None, MIN_LENGTH_MESSAGE)];
        proof {
            assert(constraint_views(input_type@) =~= declared_rules(Field::InputType));
            assert(constraint_views(location_id@) =~= declared_rules(Field::LocationId));
            assert(constraint_views(category_id@) =~= declared_rules(Field::CategoryId));
            assert(constraint_views(c_keyword@) =~= declared_rules(Field::CKeyword));
            assert(constraint_views(b_keyword@) =~= declared_rules(Field::BKeyword));
        }
        let table = vec![input_type, location_id, category_id, c_keyword, b_keyword];
        Ok(RuleModel { table })
    }

    /// The constraints of `field`, in declaration order.
    pub fn rules_for(&self, field: Field) -> (row: &Vec<Constraint>)
        ensures
            constraint_views(row@) == declared_rules(field),
    {
        proof {
            use_type_invariant(self);
        }
        &self.table[field.index()]
    }
}

} // verus!

//! What a caller is handed: a fixed marker for a valid record, or one
//! rendered message for each violation.

use vstd::prelude::*;
use vstd::string::StringExecFns;
use crate::engine::{
    error_views, outcome, record_errors, validate_record, FieldError, FieldErrorSpec, OutcomeSpec,
    Record, ValidationOutcome,
};
use crate::rules::RuleModel;

verus! {

/// What is returned for a record without violations.
pub const VALID_MARKER: &'static str = "JSON is valid!";

/// What `hello` returns.
pub const GREETING: &'static str = "Hello from Rust!";

/// What stands before the field's name in a rendered message.
pub const MESSAGE_HEAD: &'static str = "Error in field: ";

/// What stands between the field's name and the constraint's message.
pub const MESSAGE_LINK: &'static str = " -> ";

/// The rendered form of a violation: the head, the name under which the field
/// is shown, the link, and the constraint's message.
pub open spec fn rendered(error: FieldErrorSpec) -> Seq<char> {
    MESSAGE_HEAD@ + error.display_field_name + MESSAGE_LINK@ + error.message
}

/// The rendered forms of a list of violations, in the same order.
pub open spec fn rendered_all(errors: Seq<FieldErrorSpec>) -> Seq<Seq<char>> {
    errors.map_values(|e: FieldErrorSpec| rendered(e))
}

/// The characters of each text of a list.
pub open spec fn texts(list: Seq<String>) -> Seq<Seq<char>> {
    list.map_values(|s: String| s@)
}

/// What a caller is owed for an outcome: the marker, or the messages.
pub open spec fn reported(found: OutcomeSpec) -> Result<Seq<char>, Seq<Seq<char>>> {
    match found {
        OutcomeSpec::Valid => Ok(VALID_MARKER@),
        OutcomeSpec::Invalid(errors) => Err(rendered_all(errors)),
    }
}

/// A result of `report` as the contracts see it.
pub open spec fn result_view(result: Result<String, Vec<String>>) -> Result<
    Seq<char>,
    Seq<Seq<char>>,
> {
    match result {
        Ok(marker) => Ok(marker@),
        Err(messages) => Err(texts(messages@)),
    }
}

/// Renders one violation.
pub fn render(error: &FieldError) -> (message: String)
    ensures
        message@ == rendered(error@),
{
    let mut message = MESSAGE_HEAD.to_owned();
    message.append(error.display_field_name.as_str());
    message.append(MESSAGE_LINK);
    message.append(error.message.as_str());
    message
}

/// Renders every violation of a list, in the order of the list.
pub fn create_custom_error(errors: &Vec<FieldError>) -> (messages: Vec<String>)
    ensures
        texts(messages@) == rendered_all(error_views(errors@)),
{
    let mut messages: Vec<String> = Vec::new();
    for i in 0..errors.len()
        invariant
            messages@.len() == i,
            forall|k: int| 0 <= k < i ==> (#[trigger] messages@[k])@ == rendered(errors@[k]@),
    {
        messages.push(render(&errors[i]));
    }
    assert(texts(messages@) =~= rendered_all(error_views(errors@)));
    messages
}

/// Turns an outcome into what the caller is handed: the marker where the
/// record is valid, else the rendered messages in the order of the violations.
pub fn report(found: &ValidationOutcome) -> (result: Result<String, Vec<String>>)
    ensures
        result_view(result) == reported(found@),
{
    match found {
        ValidationOutcome::Valid => Ok(VALID_MARKER.to_owned()),
        ValidationOutcome::Invalid(errors) => Err(create_custom_error(errors)),
    }
}

/// Validates a decoded record and reports the outcome. The result is `Ok`
/// exactly when the record violates no constraint.
pub fn validate(rules: &RuleModel, record: &Record) -> (result: Result<String, Vec<String>>)
    ensures
        result is Ok <==> record_errors(record@).len() == 0,
        result_view(result) == reported(outcome(record@)),
{
    let found = validate_record(rules, record);
    report(&found)
}

/// A fixed greeting, by which a caller can tell that the library answers.
pub fn hello() -> (greeting: String)
    ensures
        greeting@ == GREETING@,
{
    GREETING.to_owned()
}

} // verus!

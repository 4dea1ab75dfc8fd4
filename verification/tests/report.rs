use input_validator::engine::{FieldError, Record, ValidationOutcome};
use input_validator::report::{
    create_custom_error, hello, render, report, validate, GREETING, MESSAGE_HEAD, MESSAGE_LINK,
    VALID_MARKER,
};
use input_validator::rules::RuleModel;

fn violation(name: &str, message: &str) -> FieldError {
    FieldError { display_field_name: name.to_string(), message: message.to_string() }
}

#[test]
fn hello_returns_the_greeting() {
    assert_eq!(hello(), "Hello from Rust!");
    assert_eq!(GREETING, "Hello from Rust!");
}

#[test]
fn fixed_texts() {
    assert_eq!(VALID_MARKER, "JSON is valid!");
    assert_eq!(MESSAGE_HEAD, "Error in field: ");
    assert_eq!(MESSAGE_LINK, " -> ");
}

#[test]
fn render_puts_name_and_message_in_the_fixed_form() {
    assert_eq!(
        render(&violation("type", "must be 0, 1 or 2")),
        "Error in field: type -> must be 0, 1 or 2"
    );
    assert_eq!(render(&violation("", "")), "Error in field:  -> ");
}

#[test]
fn create_custom_error_keeps_the_order() {
    let errors = vec![violation("b", "second"), violation("a", "first"), violation("b", "second")];
    assert_eq!(
        create_custom_error(&errors),
        vec![
            "Error in field: b -> second".to_string(),
            "Error in field: a -> first".to_string(),
            "Error in field: b -> second".to_string(),
        ]
    );
    assert_eq!(create_custom_error(&vec![]), Vec::<String>::new());
}

#[test]
fn report_of_a_valid_outcome_is_the_marker() {
    assert_eq!(report(&ValidationOutcome::Valid), Ok("JSON is valid!".to_string()));
}

#[test]
fn report_of_violations_is_their_rendering() {
    let found = ValidationOutcome::Invalid(vec![violation("x", "y")]);
    assert_eq!(report(&found), Err(vec!["Error in field: x -> y".to_string()]));
}

#[test]
fn validate_renders_every_violation() {
    let rules = RuleModel::new().expect("the declared patterns compile");
    let mut record = Record::empty();
    record.input_type = Some("7".to_string());
    record.location_id = Some("100".to_string());
    record.c_keyword = Some(String::new());
    assert_eq!(
        validate(&rules, &record),
        Err(vec![
            "Error in field: type -> Значение может быть только 0, 1 или 2".to_string(),
            "Error in field: location_id -> Длина строки не может быть больше 2 символов"
                .to_string(),
            "Error in field: location_id -> Значение может быть от 1 до 99".to_string(),
            "Error in field: c_keyword -> Длина строки должна быть не меньше 1 символа"
                .to_string(),
        ])
    );
}

#[test]
fn validate_twice_gives_the_same_result() {
    let rules = RuleModel::new().expect("the declared patterns compile");
    let mut record = Record::empty();
    record.input_type = Some("".to_string());
    assert_eq!(validate(&rules, &record), validate(&rules, &record));
}

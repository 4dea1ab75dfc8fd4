use input_validator::engine::{check_field, validate_record, FieldError, Record, ValidationOutcome};
use input_validator::fields::Field;
use input_validator::rules::{
    RuleModel, LOCATION_LENGTH_MESSAGE, LOCATION_PATTERN_MESSAGE, MIN_LENGTH_MESSAGE,
    TYPE_LENGTH_MESSAGE, TYPE_PATTERN_MESSAGE,
};

fn model() -> RuleModel {
    RuleModel::new().expect("the declared patterns compile")
}

fn some(s: &str) -> Option<String> {
    Some(s.to_string())
}

fn violation(name: &str, message: &str) -> FieldError {
    FieldError { display_field_name: name.to_string(), message: message.to_string() }
}

fn all_empty_texts() -> Record {
    Record {
        input_type: some(""),
        location_id: some(""),
        category_id: some(""),
        c_keyword: some(""),
        b_keyword: some(""),
    }
}

#[test]
fn every_violation_is_reported_in_declaration_order() {
    assert_eq!(
        validate_record(&model(), &all_empty_texts()),
        ValidationOutcome::Invalid(vec![
            violation("type", TYPE_LENGTH_MESSAGE),
            violation("type", TYPE_PATTERN_MESSAGE),
            violation("location_id", LOCATION_LENGTH_MESSAGE),
            violation("location_id", LOCATION_PATTERN_MESSAGE),
            violation("category_id", MIN_LENGTH_MESSAGE),
            violation("c_keyword", MIN_LENGTH_MESSAGE),
            violation("b_keyword", MIN_LENGTH_MESSAGE),
        ])
    );
}

#[test]
fn later_fields_come_after_earlier_ones() {
    let mut record = Record::empty();
    record.b_keyword = some("");
    record.location_id = some("0");
    assert_eq!(
        validate_record(&model(), &record),
        ValidationOutcome::Invalid(vec![
            violation("location_id", LOCATION_PATTERN_MESSAGE),
            violation("b_keyword", MIN_LENGTH_MESSAGE),
        ])
    );
}

#[test]
fn validating_twice_gives_the_same_outcome() {
    let rules = model();
    let record = all_empty_texts();
    let first = validate_record(&rules, &record);
    let second = validate_record(&rules, &record);
    assert_eq!(first, second);
    let valid = Record::empty();
    assert_eq!(validate_record(&rules, &valid), validate_record(&rules, &valid));
}

#[test]
fn input_type_is_never_shown_under_its_internal_name() {
    let mut record = Record::empty();
    record.input_type = some("abc");
    match validate_record(&model(), &record) {
        ValidationOutcome::Invalid(errors) => {
            assert_eq!(errors.len(), 2);
            for e in errors.iter() {
                assert_eq!(e.display_field_name, "type");
                assert_ne!(e.display_field_name, "input_type");
            }
        }
        ValidationOutcome::Valid => panic!("a text of three characters is not a valid type"),
    }
}

#[test]
fn length_only_fields_reject_only_the_empty_text() {
    let rules = model();
    for field in [Field::CategoryId, Field::CKeyword, Field::BKeyword] {
        for value in ["x", "10", "any text at all", "^[012]$", "ж"] {
            let mut record = Record::empty();
            match field {
                Field::CategoryId => record.category_id = some(value),
                Field::CKeyword => record.c_keyword = some(value),
                _ => record.b_keyword = some(value),
            }
            assert_eq!(validate_record(&rules, &record), ValidationOutcome::Valid);
            assert_eq!(check_field(&rules, &record, field), vec![]);
        }
    }
    let record = all_empty_texts();
    assert_eq!(
        check_field(&rules, &record, Field::CategoryId),
        vec![violation("category_id", MIN_LENGTH_MESSAGE)]
    );
    assert_eq!(
        check_field(&rules, &record, Field::CKeyword),
        vec![violation("c_keyword", MIN_LENGTH_MESSAGE)]
    );
    assert_eq!(
        check_field(&rules, &record, Field::BKeyword),
        vec![violation("b_keyword", MIN_LENGTH_MESSAGE)]
    );
}

#[test]
fn absent_field_has_no_violations() {
    let rules = model();
    let record = Record::empty();
    for field in Field::all() {
        assert_eq!(check_field(&rules, &record, field), vec![]);
    }
}

#[test]
fn each_accepted_type_is_valid() {
    let rules = model();
    for value in ["0", "1", "2"] {
        let mut record = Record::empty();
        record.input_type = some(value);
        assert_eq!(validate_record(&rules, &record), ValidationOutcome::Valid);
    }
}

#[test]
fn each_single_digit_location_but_zero_is_valid() {
    let rules = model();
    for value in ["1", "2", "3", "4", "5", "6", "7", "8", "9"] {
        let mut record = Record::empty();
        record.location_id = some(value);
        assert_eq!(validate_record(&rules, &record), ValidationOutcome::Valid);
    }
    let mut record = Record::empty();
    record.location_id = some("0");
    assert_eq!(
        check_field(&rules, &record, Field::LocationId),
        vec![violation("location_id", LOCATION_PATTERN_MESSAGE)]
    );
}

#[test]
fn too_long_location_breaks_both_constraints() {
    let mut record = Record::empty();
    record.location_id = some("123");
    assert_eq!(
        check_field(&model(), &record, Field::LocationId),
        vec![
            violation("location_id", LOCATION_LENGTH_MESSAGE),
            violation("location_id", LOCATION_PATTERN_MESSAGE),
        ]
    );
}

#[test]
fn too_long_type_breaks_both_constraints() {
    let mut record = Record::empty();
    record.input_type = some("12");
    assert_eq!(
        check_field(&model(), &record, Field::InputType),
        vec![violation("type", TYPE_LENGTH_MESSAGE), violation("type", TYPE_PATTERN_MESSAGE)]
    );
}

#[test]
fn pattern_is_anchored_at_both_ends() {
    let rules = model();
    for value in ["1\n", "\n1", " 1", "1 "] {
        let mut record = Record::empty();
        record.location_id = some(value);
        assert_eq!(
            check_field(&rules, &record, Field::LocationId),
            vec![violation("location_id", LOCATION_PATTERN_MESSAGE)]
        );
    }
}

#[test]
fn length_counts_characters_not_bytes() {
    let rules = model();
    let mut record = Record::empty();
    record.input_type = some("ж");
    record.location_id = some("жж");
    assert_eq!(
        validate_record(&rules, &record),
        ValidationOutcome::Invalid(vec![
            violation("type", TYPE_PATTERN_MESSAGE),
            violation("location_id", LOCATION_PATTERN_MESSAGE),
        ])
    );
}

#[test]
fn record_value_follows_the_field() {
    let record = Record {
        input_type: some("a"),
        location_id: some("b"),
        category_id: some("c"),
        c_keyword: some("d"),
        b_keyword: None,
    };
    assert_eq!(record.value(Field::InputType), &some("a"));
    assert_eq!(record.value(Field::LocationId), &some("b"));
    assert_eq!(record.value(Field::CategoryId), &some("c"));
    assert_eq!(record.value(Field::CKeyword), &some("d"));
    assert_eq!(record.value(Field::BKeyword), &None);
}

//! What holds of every validation, proved from the definitions that the
//! contracts of the engine are stated in.

use vstd::prelude::*;
use crate::engine::{
    broken_by, field_errors, outcome, record_errors, rule_errors, violation, FieldErrorSpec,
    OutcomeSpec, RecordSpec,
};
use crate::fields::Field;
use crate::rules::{declared_rules, violated, ConstraintSpec, MIN_LENGTH_MESSAGE};

verus! {

/// A record in which every field is absent is valid.
pub proof fn empty_record_is_valid(record: RecordSpec)
    requires
        record.input_type is None,
        record.location_id is None,
        record.category_id is None,
        record.c_keyword is None,
        record.b_keyword is None,
    ensures
        outcome(record) == OutcomeSpec::Valid,
{
}

/// One constraint of one field: the place of a possible violation.
pub struct Slot {
    pub field: Field,
    pub index: int,
}

/// The slots of one field, in the order of its constraints.
pub open spec fn field_slots(field: Field) -> Seq<Slot> {
    Seq::new(declared_rules(field).len(), |k: int| Slot { field, index: k })
}

/// Every slot of the table: the fields in declaration order, and the
/// constraints of each field in theirs.
pub open spec fn declared_slots() -> Seq<Slot> {
    field_slots(Field::InputType) + field_slots(Field::LocationId) + field_slots(
        Field::CategoryId,
    ) + field_slots(Field::CKeyword) + field_slots(Field::BKeyword)
}

/// Whether the record holds a text for the slot's field that breaks the
/// slot's constraint.
pub open spec fn slot_broken(record: RecordSpec, slot: Slot) -> bool {
    record.value(slot.field) matches Some(text) && violated(
        declared_rules(slot.field)[slot.index],
        text,
    )
}

/// The test that picks the slots which `record` breaks.
pub open spec fn broken_in(record: RecordSpec) -> spec_fn(Slot) -> bool {
    |slot: Slot| slot_broken(record, slot)
}

/// The violation that is reported for a slot.
pub open spec fn slot_error(slot: Slot) -> FieldErrorSpec {
    violation(slot.field, declared_rules(slot.field)[slot.index])
}

/// The step from a slot to its violation.
pub open spec fn slot_errors() -> spec_fn(Slot) -> FieldErrorSpec {
    |slot: Slot| slot_error(slot)
}

/// The slots that `record` breaks, in declaration order.
pub open spec fn broken_slots(record: RecordSpec) -> Seq<Slot> {
    declared_slots().filter(broken_in(record))
}

/// Whether `a` stands before `b` in the declaration order.
pub open spec fn declared_before(a: Slot, b: Slot) -> bool {
    a.field.position() < b.field.position() || (a.field == b.field && a.index < b.index)
}

/// Whether each slot of `slots` stands before all that follow it.
pub open spec fn in_declared_order(slots: Seq<Slot>) -> bool {
    forall|i: int, j: int| 0 <= i < j < slots.len() ==> declared_before(slots[i], slots[j])
}

proof fn field_slots_prefix(record: RecordSpec, field: Field, n: nat)
    requires
        n <= declared_rules(field).len(),
    ensures
        field_slots(field).take(n as int).filter(broken_in(record)).map_values(slot_errors())
            == match record.value(field) {
            None => Seq::empty(),
            Some(text) => rule_errors(field, declared_rules(field).take(n as int), text),
        },
    decreases n,
{
    reveal(Seq::filter);
    let slots = field_slots(field);
    let rules = declared_rules(field);
    let lhs = slots.take(n as int).filter(broken_in(record)).map_values(slot_errors());
    if n == 0 {
        match record.value(field) {
            None => {
                assert(lhs =~= Seq::empty());
            },
            Some(text) => {
                assert(lhs =~= rule_errors(field, rules.take(0), text));
            },
        }
    } else {
        let m = (n - 1) as int;
        field_slots_prefix(record, field, m as nat);
        let slot = slots[m];
        let earlier = slots.take(m);
        assert(slots.take(n as int) =~= earlier.push(slot));
        earlier.lemma_filter_push(slot, broken_in(record));
        match record.value(field) {
            None => {
                assert(!slot_broken(record, slot));
            },
            Some(text) => {
                let c = rules[m];
                assert(rules.take(n as int) =~= rules.take(m).push(c));
                rules.take(m).lemma_filter_push(c, broken_by(text));
                assert(slot_broken(record, slot) == violated(c, text));
                assert(slot_error(slot) == violation(field, c));
                if violated(c, text) {
                    assert(lhs =~= earlier.filter(broken_in(record)).map_values(
                        slot_errors(),
                    ).push(slot_error(slot)));
                    assert(rule_errors(field, rules.take(n as int), text) =~= rule_errors(
                        field,
                        rules.take(m),
                        text,
                    ).push(violation(field, c)));
                }
            },
        }
    }
}

proof fn field_slots_errors(record: RecordSpec, field: Field)
    ensures
        field_slots(field).filter(broken_in(record)).map_values(slot_errors()) == field_errors(
            field,
            record.value(field),
        ),
{
    let n = declared_rules(field).len();
    field_slots_prefix(record, field, n);
    assert(field_slots(field).take(n as int) =~= field_slots(field));
    assert(declared_rules(field).take(n as int) =~= declared_rules(field));
}

/// The violations of a record are those of the slots that it breaks, one for
/// each, in declaration order: the fields in their order, and within a field
/// its constraints in theirs. No broken constraint is passed over, whatever
/// was found before it.
pub proof fn errors_follow_declaration(record: RecordSpec)
    ensures
        record_errors(record) == broken_slots(record).map_values(slot_errors()),
        in_declared_order(broken_slots(record)),
{
    let p = broken_in(record);
    let e = slot_errors();
    let s0 = field_slots(Field::InputType);
    let s1 = field_slots(Field::LocationId);
    let s2 = field_slots(Field::CategoryId);
    let s3 = field_slots(Field::CKeyword);
    let s4 = field_slots(Field::BKeyword);
    field_slots_errors(record, Field::InputType);
    field_slots_errors(record, Field::LocationId);
    field_slots_errors(record, Field::CategoryId);
    field_slots_errors(record, Field::CKeyword);
    field_slots_errors(record, Field::BKeyword);
    Seq::filter_distributes_over_add(s0, s1, p);
    Seq::filter_distributes_over_add(s0 + s1, s2, p);
    Seq::filter_distributes_over_add(s0 + s1 + s2, s3, p);
    Seq::filter_distributes_over_add(s0 + s1 + s2 + s3, s4, p);
    assert(broken_slots(record) == s0.filter(p) + s1.filter(p) + s2.filter(p) + s3.filter(p)
        + s4.filter(p));
    assert(broken_slots(record).map_values(e) =~= s0.filter(p).map_values(e) + s1.filter(
        p,
    ).map_values(e) + s2.filter(p).map_values(e) + s3.filter(p).map_values(e) + s4.filter(
        p,
    ).map_values(e));
    declared_slots_in_order();
    filter_keeps_order(declared_slots(), p);
}

proof fn declared_slots_in_order()
    ensures
        in_declared_order(declared_slots()),
{
    let all = declared_slots();
    assert(all.len() == 7);
    assert(all[0] == Slot { field: Field::InputType, index: 0 });
    assert(all[1] == Slot { field: Field::InputType, index: 1 });
    assert(all[2] == Slot { field: Field::LocationId, index: 0 });
    assert(all[3] == Slot { field: Field::LocationId, index: 1 });
    assert(all[4] == Slot { field: Field::CategoryId, index: 0 });
    assert(all[5] == Slot { field: Field::CKeyword, index: 0 });
    assert(all[6] == Slot { field: Field::BKeyword, index: 0 });
}

proof fn filter_keeps_order(slots: Seq<Slot>, keep: spec_fn(Slot) -> bool)
    requires
        in_declared_order(slots),
    ensures
        in_declared_order(slots.filter(keep)),
    decreases slots.len(),
{
    reveal(Seq::filter);
    if slots.len() > 0 {
        let earlier = slots.drop_last();
        filter_keeps_order(earlier, keep);
        let kept = earlier.filter(keep);
        assert forall|i: int| 0 <= i < kept.len() implies declared_before(
            #[trigger] kept[i],
            slots.last(),
        ) by {
            assert(kept.contains(kept[i]));
            earlier.lemma_filter_contains_rev(keep, kept[i]);
            assert(earlier.contains(kept[i]));
            let at = choose|at: int| 0 <= at < earlier.len() && earlier[at] == kept[i];
            assert(declared_before(slots[at], slots[slots.len() - 1]));
        }
    }
}

/// Validation is a function of what the record holds: two outcomes that are
/// each owed for records with the same fields are the same, in content and in
/// order.
pub proof fn same_record_same_outcome(
    first: RecordSpec,
    second: RecordSpec,
    found_first: OutcomeSpec,
    found_second: OutcomeSpec,
)
    requires
        first == second,
        found_first == outcome(first),
        found_second == outcome(second),
    ensures
        found_first == found_second,
{
}

/// Every violation of `input_type` is shown under the name `type`, and no
/// violation of any field is shown under the name `input_type`.
pub proof fn input_type_is_shown_as_type(record: RecordSpec, i: int)
    requires
        0 <= i < record_errors(record).len(),
    ensures
        i < field_errors(Field::InputType, record.input_type).len()
            ==> record_errors(record)[i].display_field_name == "type"@,
        record_errors(record)[i].display_field_name != "input_type"@,
{
    reveal_strlit("type");
    reveal_strlit("input_type");
    reveal_strlit("location_id");
    reveal_strlit("category_id");
    reveal_strlit("c_keyword");
    reveal_strlit("b_keyword");
    errors_follow_declaration(record);
    let slot = broken_slots(record)[i];
    assert(record_errors(record)[i] == slot_error(slot));
    assert(slot_error(slot).display_field_name == slot.field.display_name());
    assert("type"@.len() == 4);
    assert("input_type"@.len() == 10);
    assert("location_id"@.len() == 11);
    assert("category_id"@.len() == 11);
    assert("c_keyword"@.len() == 9);
    assert("b_keyword"@.len() == 9);
}

/// A field with a length constraint alone (`category_id`, `c_keyword`,
/// `b_keyword`) rejects the empty text with the one message of that
/// constraint, and accepts every other text.
pub proof fn length_only_fields(field: Field, text: Seq<char>)
    requires
        field == Field::CategoryId || field == Field::CKeyword || field == Field::BKeyword,
    ensures
        text.len() == 0 ==> field_errors(field, Some(text)) == seq![
            FieldErrorSpec {
                display_field_name: field.display_name(),
                message: MIN_LENGTH_MESSAGE@,
            },
        ],
        text.len() > 0 ==> field_errors(field, Some(text)) == Seq::<FieldErrorSpec>::empty(),
{
    reveal(Seq::filter);
    let rules = declared_rules(field);
    let c = rules[0];
    let none = Seq::<ConstraintSpec>::empty();
    assert(rules =~= none.push(c));
    none.lemma_filter_push(c, broken_by(text));
    if text.len() == 0 {
        assert(field_errors(field, Some(text)) =~= seq![
            FieldErrorSpec {
                display_field_name: field.display_name(),
                message: MIN_LENGTH_MESSAGE@,
            },
        ]);
    } else {
        assert(field_errors(field, Some(text)) =~= Seq::<FieldErrorSpec>::empty());
    }
}

} // verus!

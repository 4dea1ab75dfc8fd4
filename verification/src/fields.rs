//! The five fields of a record, in the order in which they are declared.

use vstd::prelude::*;

verus! {

/// One field of a record.
#[derive(Clone, Copy, Debug, PartialEq, Eq, Structural)]
pub enum Field {
    InputType,
    LocationId,
    CategoryId,
    CKeyword,
    BKeyword,
}

impl Field {
    /// Every field, in declaration order.
    pub open spec fn declared() -> Seq<Field> {
        seq![
            Field::InputType,
            Field::LocationId,
            Field::CategoryId,
            Field::CKeyword,
            Field::BKeyword,
        ]
    }

    /// The place of this field in the declaration order, from 0.
    pub open spec fn position(self) -> int {
        match self {
            Field::InputType => 0,
            Field::LocationId => 1,
            Field::CategoryId => 2,
            Field::CKeyword => 3,
            Field::BKeyword => 4,
        }
    }

    /// The name by which the record itself knows the field.
    pub open spec fn internal_name(self) -> Seq<char> {
        match self {
            Field::InputType => "input_type"@,
            Field::LocationId => "location_id"@,
            Field::CategoryId => "category_id"@,
            Field::CKeyword => "c_keyword"@,
            Field::BKeyword => "b_keyword"@,
        }
    }

    /// The name under which the field is shown to a caller: `type` for
    /// `input_type`, and the internal name for every other field.
    pub open spec fn display_name(self) -> Seq<char> {
        match self {
            Field::InputType => "type"@,
            _ => self.internal_name(),
        }
    }

    /// Every field, in declaration order.
    pub fn all() -> (fields: Vec<Field>)
        ensures
            fields@ == Field::declared(),
    {
        let fields = vec![
            Field::InputType,
            Field::LocationId,
            Field::CategoryId,
            Field::CKeyword,
            Field::BKeyword,
        ];
        assert(fields@ =~= Field::declared());
        fields
    }

    /// The place of this field in the declaration order, from 0.
    pub fn index(self) -> (i: usize)
        ensures
            i == self.position(),
            i < 5,
            Field::declared()[i as int] == self,
    {
        match self {
            Field::InputType => 0,
            Field::LocationId => 1,
            Field::CategoryId => 2,
            Field::CKeyword => 3,
            Field::BKeyword => 4,
        }
    }

    /// The name by which the record itself knows the field.
    pub fn name(self) -> (name: &'static str)
        ensures
            name@ == self.internal_name(),
    {
        match self {
            Field::InputType => "input_type",
            Field::LocationId => "location_id",
            Field::CategoryId => "category_id",
            Field::CKeyword => "c_keyword",
            Field::BKeyword => "b_keyword",
        }
    }

    /// The name under which the field is shown to a caller.
    pub fn shown_as(self) -> (name: &'static str)
        ensures
            name@ == self.display_name(),
    {
        match self {
            Field::InputType => "type",
            _ => self.name(),
        }
    }
}

} // verus!

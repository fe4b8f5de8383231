//! The fields that the payloads are made of, and the rules of each.

use vstd::prelude::*;
use crate::constraint::{email_syntax, Constraint};

verus! {

/// A field of one of the payloads.
#[derive(Clone, Copy, Debug, PartialEq, Eq, Structural)]
pub enum Field {
    Email,
    FirstName,
    LastName,
    Password,
    Key,
}

impl Field {
    /// The name under which the field travels on the wire.
    pub open spec fn label(self) -> Seq<char> {
        match self {
            Field::Email => "email"@,
            Field::FirstName => "first_name"@,
            Field::LastName => "last_name"@,
            Field::Password => "password"@,
            Field::Key => "key"@,
        }
    }

    /// The rules of the field, in the order in which they are checked.
    pub open spec fn rules(self) -> Seq<Constraint> {
        match self {
            Field::Email => seq![
                Constraint::EmailFormat,
                Constraint::LengthRange { min: 6, max: 128 },
            ],
            Field::FirstName => seq![Constraint::LengthRange { min: 2, max: 32 }],
            Field::LastName => seq![Constraint::LengthRange { min: 2, max: 32 }],
            Field::Password => seq![Constraint::LengthRange { min: 8, max: 64 }],
            Field::Key => seq![Constraint::LengthExact { expected: 256 }],
        }
    }

    /// Whether `value` may be stored in the field: every rule holds of it.
    pub open spec fn accepts(self, value: Seq<char>) -> bool {
        forall|i: int| 0 <= i < self.rules().len() ==> (#[trigger] self.rules()[i]).holds(value)
    }

    /// The name under which the field travels on the wire.
    pub fn name(self) -> (name: &'static str)
        ensures
            name@ == self.label(),
    {
        match self {
            Field::Email => "email",
            Field::FirstName => "first_name",
            Field::LastName => "last_name",
            Field::Password => "password",
            Field::Key => "key",
        }
    }

    /// The rules of the field, in the order in which they are checked.
    pub fn constraints(self) -> (rules: Vec<Constraint>)
        ensures
            rules@ == self.rules(),
    {
        match self {
            Field::Email => vec![
                Constraint::EmailFormat,
                Constraint::LengthRange { min: 6, max: 128 },
            ],
            Field::FirstName => vec![Constraint::LengthRange { min: 2, max: 32 }],
            Field::LastName => vec![Constraint::LengthRange { min: 2, max: 32 }],
            Field::Password => vec![Constraint::LengthRange { min: 8, max: 64 }],
            Field::Key => vec![Constraint::LengthExact { expected: 256 }],
        }
    }

    /// What each field accepts, written out: an e-mail address of 6 to 128
    /// characters, a name of 2 to 32, a password of 8 to 64, a key of
    /// exactly 256.
    pub proof fn lemma_accepts(self, value: Seq<char>)
        ensures
            self.accepts(value) <==> (match self {
                Field::Email => email_syntax(value) && 6 <= value.len() <= 128,
                Field::FirstName => 2 <= value.len() <= 32,
                Field::LastName => 2 <= value.len() <= 32,
                Field::Password => 8 <= value.len() <= 64,
                Field::Key => value.len() == 256,
            }),
    {
        let rules = self.rules();
        if self.accepts(value) {
            assert(rules[0].holds(value));
            if self == Field::Email {
                assert(rules[1].holds(value));
            }
        }
    }
}

} // verus!

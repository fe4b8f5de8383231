//! The rules a single text value can be held to, and the calls into the
//! `validator` crate that decide them.

use vstd::prelude::*;

verus! {

/// Whether `address` is an e-mail address in the eyes of the `validator`
/// crate: the value that `validator::ValidateEmail::validate_email` returns
/// for the string made of these characters.
pub uninterp spec fn email_syntax(address: Seq<char>) -> bool;

/// What `validator::ValidateLength::validate_length` answers for a text of
/// `length` characters: with `equal` given, only `equal` counts; otherwise
/// each of `min` and `max` that is given must be respected.
pub open spec fn length_allowed(
    length: nat,
    min: Option<u64>,
    max: Option<u64>,
    equal: Option<u64>,
) -> bool {
    match equal {
        Some(n) => length == n,
        None => (min matches Some(lo) ==> lo <= length) && (max matches Some(hi) ==> length
            <= hi),
    }
}

/// Runs `validator::ValidateEmail::validate_email` on `address`.
///
/// Trusted, not proved: the answer depends on the characters of `address`
/// alone, and an address without an `@` is never accepted (the function
/// returns `false` before looking any further).
#[verifier::external_body]
fn is_email(address: &str) -> (ok: bool)
    ensures
        ok == email_syntax(address@),
        ok ==> address@.contains('@'),
{
    validator::ValidateEmail::validate_email(&address)
}

/// Runs `validator::ValidateLength::validate_length` on `value`.
///
/// Trusted, not proved: for a string the length that is compared is its
/// number of characters, and the comparison is the one `length_allowed`
/// spells out.
#[verifier::external_body]
fn has_allowed_length(value: &str, min: Option<u64>, max: Option<u64>, equal: Option<u64>) -> (ok:
    bool)
    ensures
        ok == length_allowed(value@.len(), min, max, equal),
{
    validator::ValidateLength::validate_length(value, min, max, equal)
}

/// One rule on a text value.
#[derive(Clone, Copy, Debug, PartialEq, Eq, Structural)]
pub enum Constraint {
    /// The value must be an e-mail address.
    EmailFormat,
    /// The value must have at least `min` and at most `max` characters.
    LengthRange { min: u64, max: u64 },
    /// The value must have exactly `expected` characters.
    LengthExact { expected: u64 },
}

impl Constraint {
    /// Whether `value` satisfies this rule.
    pub open spec fn holds(self, value: Seq<char>) -> bool {
        match self {
            Constraint::EmailFormat => email_syntax(value),
            Constraint::LengthRange { min, max } => min <= value.len() <= max,
            Constraint::LengthExact { expected } => value.len() == expected,
        }
    }

    /// Decides whether `value` satisfies this rule.
    pub fn check(&self, value: &str) -> (ok: bool)
        ensures
            ok == self.holds(value@),
            ok && *self == Constraint::EmailFormat ==> value@.contains('@'),
    {
        match *self {
            Constraint::EmailFormat => is_email(value),
            Constraint::LengthRange { min, max } => has_allowed_length(
                value,
                Some(min),
                Some(max),
                None,
            ),
            Constraint::LengthExact { expected } => has_allowed_length(
                value,
                None,
                None,
                Some(expected),
            ),
        }
    }
}

} // verus!

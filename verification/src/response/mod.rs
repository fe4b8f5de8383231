//! The answer of the authentication service to a request that succeeded.

use vstd::prelude::*;
use crate::constraint::Constraint;
use crate::error::{
    cited, lemma_no_violations, lemma_violations_contain, validate_field, violations,
    ValidationError, Violation,
};
use crate::field::Field;

verus! {

/// What a [`Token`] holds, as characters.
pub struct TokenView {
    pub key: Seq<char>,
}

impl TokenView {
    /// Whether this value makes a token: the key has exactly 256 characters.
    pub open spec fn valid(self) -> bool {
        self.key.len() == 256
    }

    /// Every rule that the key breaks.
    pub open spec fn violations(self) -> Seq<Violation> {
        violations(Field::Key, self.key)
    }

    /// The rule that a token has: the length of its key.
    pub open spec fn key_length() -> Violation {
        Violation { field: Field::Key, constraint: Constraint::LengthExact { expected: 256 } }
    }

    /// The key makes a token exactly when the key field accepts it, and
    /// exactly when no rule is broken.
    pub proof fn lemma_valid(self)
        ensures
            self.valid() <==> Field::Key.accepts(self.key),
            self.valid() <==> self.violations().len() == 0,
    {
        Field::Key.lemma_accepts(self.key);
        lemma_no_violations(Field::Key, self.key);
    }

    /// A key of any length but 256 has one report, which is against the key
    /// and names the length that was expected; a key of 256 characters has
    /// none.
    pub proof fn lemma_key_length(self)
        ensures
            self.key.len() != 256 ==> self.violations() == seq![Self::key_length()] && cited(
                self.violations(),
                Field::Key,
            ),
            self.key.len() == 256 ==> self.violations() == Seq::<Violation>::empty(),
    {
        let all = self.violations();
        let report = Self::key_length();
        self.lemma_valid();
        assert(Field::Key.rules() == seq![report.constraint]);
        assert(Field::Key.rules()[0] == report.constraint);
        lemma_violations_contain(Field::Key, self.key, report);
        Field::Key.rules().lemma_filter_len(crate::error::broken_by(self.key));
        if self.key.len() != 256 {
            assert(all.len() == 1);
            assert(all.contains(all[0]));
            lemma_violations_contain(Field::Key, self.key, all[0]);
            let k = choose|k: int|
                0 <= k < Field::Key.rules().len() && Field::Key.rules()[k] == all[0].constraint;
            assert(all[0] == report);
            assert(all == seq![report]);
        } else {
            assert(all == Seq::<Violation>::empty());
        }
    }
}

/// The credential that the service returns when a registration or a login
/// succeeded.
///
/// Every instance holds a key of exactly 256 characters: there is no way to
/// make one but [`Token::new`], and none to change one.
#[derive(Debug)]
pub struct Token {
    key: String,
}

impl View for Token {
    type V = TokenView;

    closed spec fn view(&self) -> TokenView {
        TokenView { key: self.key@ }
    }
}

impl Token {
    #[verifier::type_invariant]
    spec fn satisfies_rules(self) -> bool {
        self@.valid()
    }

    /// Makes a token of the key if the key has exactly 256 characters, and
    /// keeps it as it is. Otherwise reports the expected length against the
    /// key.
    pub fn new(key: String) -> (made: Result<Token, ValidationError>)
        ensures
            (match made {
                Ok(token) => key@.len() == 256 && token@ == (TokenView { key: key@ }),
                Err(error) => key@.len() != 256 && error@ == seq![TokenView::key_length()],
            }),
    {
        let ghost given = TokenView { key: key@ };
        let mut found: Vec<Violation> = Vec::new();
        validate_field(Field::Key, key.as_str(), &mut found);
        proof {
            assert(found@ == given.violations());
            given.lemma_key_length();
        }
        if found.len() == 0 {
            Ok(Token { key })
        } else {
            Err(ValidationError::from_violations(found))
        }
    }

    /// The key, as it was given.
    pub fn key(&self) -> (key: &str)
        ensures
            key@ == self@.key,
            key@.len() == 256,
    {
        proof {
            use_type_invariant(self);
        }
        self.key.as_str()
    }
}

impl PartialEq for Token {
    /// Two tokens are equal when their keys are.
    fn eq(&self, other: &Token) -> (equal: bool) {
        self.key == other.key
    }
}

impl Eq for Token {

}

impl vstd::std_specs::cmp::PartialEqSpecImpl for Token {
    open spec fn obeys_eq_spec() -> bool {
        true
    }

    open spec fn eq_spec(&self, other: &Token) -> bool {
        self@ == other@
    }
}

} // verus!

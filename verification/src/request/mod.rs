//! The two requests that a client sends to the authentication service.

use vstd::prelude::*;
use crate::constraint::{email_syntax, Constraint};
use crate::error::{
    cited, lemma_concat_contains, lemma_no_violations, lemma_violations_contain, validate_field,
    violations, ValidationError, Violation,
};
use crate::field::Field;

verus! {

/// What a [`Registration`] holds, as characters.
pub struct RegistrationView {
    pub email: Seq<char>,
    pub first_name: Seq<char>,
    pub last_name: Seq<char>,
    pub password: Seq<char>,
}

impl RegistrationView {
    /// Whether these four values make a registration: the e-mail is an
    /// address of 6 to 128 characters, each name has 2 to 32 characters and
    /// the password 8 to 64.
    pub open spec fn valid(self) -> bool {
        &&& email_syntax(self.email)
        &&& 6 <= self.email.len() <= 128
        &&& 2 <= self.first_name.len() <= 32
        &&& 2 <= self.last_name.len() <= 32
        &&& 8 <= self.password.len() <= 64
    }

    /// The value given for `field`, if a registration has that field.
    pub open spec fn value(self, field: Field) -> Option<Seq<char>> {
        match field {
            Field::Email => Some(self.email),
            Field::FirstName => Some(self.first_name),
            Field::LastName => Some(self.last_name),
            Field::Password => Some(self.password),
            Field::Key => None,
        }
    }

    /// Every rule that these values break: those of the e-mail first, then
    /// those of the first name, of the last name and of the password.
    pub open spec fn violations(self) -> Seq<Violation> {
        violations(Field::Email, self.email) + violations(Field::FirstName, self.first_name)
            + violations(Field::LastName, self.last_name) + violations(
            Field::Password,
            self.password,
        )
    }

    /// The values make a registration exactly when each field accepts its
    /// value, and exactly when no rule is broken.
    pub proof fn lemma_valid(self)
        ensures
            self.valid() <==> Field::Email.accepts(self.email) && Field::FirstName.accepts(
                self.first_name,
            ) && Field::LastName.accepts(self.last_name) && Field::Password.accepts(
                self.password,
            ),
            self.valid() <==> self.violations().len() == 0,
    {
        Field::Email.lemma_accepts(self.email);
        Field::FirstName.lemma_accepts(self.first_name);
        Field::LastName.lemma_accepts(self.last_name);
        Field::Password.lemma_accepts(self.password);
        lemma_no_violations(Field::Email, self.email);
        lemma_no_violations(Field::FirstName, self.first_name);
        lemma_no_violations(Field::LastName, self.last_name);
        lemma_no_violations(Field::Password, self.password);
    }

    /// A rule is reported exactly when it is a rule of one of the four
    /// fields and the value given for that field breaks it.
    pub proof fn lemma_reported(self, report: Violation)
        ensures
            self.violations().contains(report) <==> (self.value(report.field) matches Some(value)
                && report.field.rules().contains(report.constraint) && !report.constraint.holds(
                value,
            )),
    {
        let email = violations(Field::Email, self.email);
        let first_name = violations(Field::FirstName, self.first_name);
        let last_name = violations(Field::LastName, self.last_name);
        let password = violations(Field::Password, self.password);
        lemma_violations_contain(Field::Email, self.email, report);
        lemma_violations_contain(Field::FirstName, self.first_name, report);
        lemma_violations_contain(Field::LastName, self.last_name, report);
        lemma_violations_contain(Field::Password, self.password, report);
        lemma_concat_contains(email, first_name, report);
        lemma_concat_contains(email + first_name, last_name, report);
        lemma_concat_contains(email + first_name + last_name, password, report);
    }

    /// A field is named in the failure exactly when it does not accept the
    /// value given for it.
    pub proof fn lemma_cited(self, field: Field)
        ensures
            cited(self.violations(), field) <==> (self.value(field) matches Some(value)
                && !field.accepts(value)),
    {
        let all = self.violations();
        if cited(all, field) {
            let i = choose|i: int| 0 <= i < all.len() && (#[trigger] all[i]).field == field;
            assert(all.contains(all[i]));
            self.lemma_reported(all[i]);
            let rule = all[i].constraint;
            let k = choose|k: int| 0 <= k < field.rules().len() && field.rules()[k] == rule;
            assert(!field.rules()[k].holds(self.value(field)->0));
        }
        if self.value(field) is Some && !field.accepts(self.value(field)->0) {
            let value = self.value(field)->0;
            let k = choose|k: int|
                0 <= k < field.rules().len() && !(#[trigger] field.rules()[k]).holds(value);
            let report = Violation { field, constraint: field.rules()[k] };
            assert(field.rules().contains(report.constraint));
            self.lemma_reported(report);
            let i = choose|i: int| 0 <= i < all.len() && all[i] == report;
            assert(all[i].field == field);
        }
    }

    /// Whatever the other fields hold, a value that is no e-mail address is
    /// reported against the e-mail field, and only such a value is.
    pub proof fn lemma_email_format(self)
        ensures
            !email_syntax(self.email) <==> self.violations().contains(
                (Violation { field: Field::Email, constraint: Constraint::EmailFormat }),
            ),
            !email_syntax(self.email) ==> !self.valid() && cited(self.violations(), Field::Email),
    {
        let report = Violation { field: Field::Email, constraint: Constraint::EmailFormat };
        assert(Field::Email.rules()[0] == report.constraint);
        self.lemma_reported(report);
        self.lemma_cited(Field::Email);
        Field::Email.lemma_accepts(self.email);
    }

    /// An e-mail of fewer than 6 or more than 128 characters is reported
    /// against the e-mail field with these two bounds, and only such an
    /// e-mail is; an address of 6 to 128 characters is accepted.
    pub proof fn lemma_email_length(self)
        ensures
            !(6 <= self.email.len() <= 128) <==> self.violations().contains(
                (Violation {
                    field: Field::Email,
                    constraint: Constraint::LengthRange { min: 6, max: 128 },
                }),
            ),
            !(6 <= self.email.len() <= 128) ==> !self.valid() && cited(
                self.violations(),
                Field::Email,
            ),
            email_syntax(self.email) && 6 <= self.email.len() <= 128 ==> Field::Email.accepts(
                self.email,
            ),
    {
        let report = Violation {
            field: Field::Email,
            constraint: Constraint::LengthRange { min: 6, max: 128 },
        };
        assert(Field::Email.rules()[1] == report.constraint);
        self.lemma_reported(report);
        self.lemma_cited(Field::Email);
        Field::Email.lemma_accepts(self.email);
    }

    /// A first name of fewer than 2 or more than 32 characters is reported
    /// against the first name with these two bounds, and only such a name
    /// is; the same holds of the last name.
    pub proof fn lemma_name_length(self)
        ensures
            !(2 <= self.first_name.len() <= 32) <==> self.violations().contains(
                (Violation {
                    field: Field::FirstName,
                    constraint: Constraint::LengthRange { min: 2, max: 32 },
                }),
            ),
            !(2 <= self.last_name.len() <= 32) <==> self.violations().contains(
                (Violation {
                    field: Field::LastName,
                    constraint: Constraint::LengthRange { min: 2, max: 32 },
                }),
            ),
            !(2 <= self.first_name.len() <= 32) ==> !self.valid() && cited(
                self.violations(),
                Field::FirstName,
            ),
            !(2 <= self.last_name.len() <= 32) ==> !self.valid() && cited(
                self.violations(),
                Field::LastName,
            ),
    {
        let rule = Constraint::LengthRange { min: 2, max: 32 };
        assert(Field::FirstName.rules()[0] == rule);
        assert(Field::LastName.rules()[0] == rule);
        self.lemma_reported(Violation { field: Field::FirstName, constraint: rule });
        self.lemma_reported(Violation { field: Field::LastName, constraint: rule });
        self.lemma_cited(Field::FirstName);
        self.lemma_cited(Field::LastName);
        Field::FirstName.lemma_accepts(self.first_name);
        Field::LastName.lemma_accepts(self.last_name);
    }

    /// A password of fewer than 8 or more than 64 characters is reported
    /// against the password with these two bounds, and only such a password
    /// is.
    pub proof fn lemma_password_length(self)
        ensures
            !(8 <= self.password.len() <= 64) <==> self.violations().contains(
                (Violation {
                    field: Field::Password,
                    constraint: Constraint::LengthRange { min: 8, max: 64 },
                }),
            ),
            !(8 <= self.password.len() <= 64) ==> !self.valid() && cited(
                self.violations(),
                Field::Password,
            ),
    {
        let rule = Constraint::LengthRange { min: 8, max: 64 };
        assert(Field::Password.rules()[0] == rule);
        self.lemma_reported(Violation { field: Field::Password, constraint: rule });
        self.lemma_cited(Field::Password);
        Field::Password.lemma_accepts(self.password);
    }
}

/// The request that opens an account. Once serialized it is sent with the
/// **POST** method.
///
/// Every instance satisfies the rules of its four fields: there is no way to
/// make one but [`Registration::new`], and none to change one.
#[derive(Debug)]
pub struct Registration {
    email: String,
    first_name: String,
    last_name: String,
    password: String,
}

impl View for Registration {
    type V = RegistrationView;

    closed spec fn view(&self) -> RegistrationView {
        RegistrationView {
            email: self.email@,
            first_name: self.first_name@,
            last_name: self.last_name@,
            password: self.password@,
        }
    }
}

impl Registration {
    #[verifier::type_invariant]
    spec fn satisfies_rules(self) -> bool {
        self@.valid() && self.email@.contains('@')
    }

    /// Makes a registration of the four values if they break no rule, and
    /// keeps them as they are. Otherwise reports every rule that they break.
    pub fn new(email: String, first_name: String, last_name: String, password: String) -> (made:
        Result<Registration, ValidationError>)
        ensures
            ({
                let given = RegistrationView {
                    email: email@,
                    first_name: first_name@,
                    last_name: last_name@,
                    password: password@,
                };
                match made {
                    Ok(registration) => given.valid() && registration@ == given
                        && email@.contains('@'),
                    Err(error) => !given.valid() && error@ == given.violations(),
                }
            }),
    {
        let ghost given = RegistrationView {
            email: email@,
            first_name: first_name@,
            last_name: last_name@,
            password: password@,
        };
        let mut found: Vec<Violation> = Vec::new();
        validate_field(Field::Email, email.as_str(), &mut found);
        validate_field(Field::FirstName, first_name.as_str(), &mut found);
        validate_field(Field::LastName, last_name.as_str(), &mut found);
        validate_field(Field::Password, password.as_str(), &mut found);
        proof {
            assert(found@ == given.violations());
            given.lemma_valid();
        }
        if found.len() == 0 {
            Ok(Registration { email, first_name, last_name, password })
        } else {
            Err(ValidationError::from_violations(found))
        }
    }

    /// The e-mail address, as it was given.
    pub fn email(&self) -> (email: &str)
        ensures
            email@ == self@.email,
            self@.valid(),
            email@.contains('@'),
    {
        proof {
            use_type_invariant(self);
        }
        self.email.as_str()
    }

    /// The first name, as it was given.
    pub fn first_name(&self) -> (first_name: &str)
        ensures
            first_name@ == self@.first_name,
            self@.valid(),
    {
        proof {
            use_type_invariant(self);
        }
        self.first_name.as_str()
    }

    /// The last name, as it was given.
    pub fn last_name(&self) -> (last_name: &str)
        ensures
            last_name@ == self@.last_name,
            self@.valid(),
    {
        proof {
            use_type_invariant(self);
        }
        self.last_name.as_str()
    }

    /// The password, as it was given.
    pub fn password(&self) -> (password: &str)
        ensures
            password@ == self@.password,
            self@.valid(),
    {
        proof {
            use_type_invariant(self);
        }
        self.password.as_str()
    }
}

impl PartialEq for Registration {
    /// Two registrations are equal when their four fields are.
    fn eq(&self, other: &Registration) -> (equal: bool) {
        self.email == other.email && self.first_name == other.first_name && self.last_name
            == other.last_name && self.password == other.password
    }
}

impl Eq for Registration {

}

impl vstd::std_specs::cmp::PartialEqSpecImpl for Registration {
    open spec fn obeys_eq_spec() -> bool {
        true
    }

    open spec fn eq_spec(&self, other: &Registration) -> bool {
        self@ == other@
    }
}

/// What a [`Login`] holds, as characters.
pub struct LoginView {
    pub email: Seq<char>,
    pub password: Seq<char>,
}

impl LoginView {
    /// Whether these two values make a login: the e-mail is an address of 6
    /// to 128 characters and the password has 8 to 64.
    pub open spec fn valid(self) -> bool {
        &&& email_syntax(self.email)
        &&& 6 <= self.email.len() <= 128
        &&& 8 <= self.password.len() <= 64
    }

    /// The value given for `field`, if a login has that field.
    pub open spec fn value(self, field: Field) -> Option<Seq<char>> {
        match field {
            Field::Email => Some(self.email),
            Field::Password => Some(self.password),
            _ => None,
        }
    }

    /// Every rule that these values break: those of the e-mail first, then
    /// those of the password.
    pub open spec fn violations(self) -> Seq<Violation> {
        violations(Field::Email, self.email) + violations(Field::Password, self.password)
    }

    /// The values make a login exactly when each field accepts its value,
    /// and exactly when no rule is broken.
    pub proof fn lemma_valid(self)
        ensures
            self.valid() <==> Field::Email.accepts(self.email) && Field::Password.accepts(
                self.password,
            ),
            self.valid() <==> self.violations().len() == 0,
    {
        Field::Email.lemma_accepts(self.email);
        Field::Password.lemma_accepts(self.password);
        lemma_no_violations(Field::Email, self.email);
        lemma_no_violations(Field::Password, self.password);
    }

    /// A rule is reported exactly when it is a rule of one of the two fields
    /// and the value given for that field breaks it.
    pub proof fn lemma_reported(self, report: Violation)
        ensures
            self.violations().contains(report) <==> (self.value(report.field) matches Some(value)
                && report.field.rules().contains(report.constraint) && !report.constraint.holds(
                value,
            )),
    {
        lemma_violations_contain(Field::Email, self.email, report);
        lemma_violations_contain(Field::Password, self.password, report);
        lemma_concat_contains(
            violations(Field::Email, self.email),
            violations(Field::Password, self.password),
            report,
        );
    }

    /// A field is named in the failure exactly when it does not accept the
    /// value given for it.
    pub proof fn lemma_cited(self, field: Field)
        ensures
            cited(self.violations(), field) <==> (self.value(field) matches Some(value)
                && !field.accepts(value)),
    {
        let all = self.violations();
        if cited(all, field) {
            let i = choose|i: int| 0 <= i < all.len() && (#[trigger] all[i]).field == field;
            assert(all.contains(all[i]));
            self.lemma_reported(all[i]);
            let rule = all[i].constraint;
            let k = choose|k: int| 0 <= k < field.rules().len() && field.rules()[k] == rule;
            assert(!field.rules()[k].holds(self.value(field)->0));
        }
        if self.value(field) is Some && !field.accepts(self.value(field)->0) {
            let value = self.value(field)->0;
            let k = choose|k: int|
                0 <= k < field.rules().len() && !(#[trigger] field.rules()[k]).holds(value);
            let report = Violation { field, constraint: field.rules()[k] };
            assert(field.rules().contains(report.constraint));
            self.lemma_reported(report);
            let i = choose|i: int| 0 <= i < all.len() && all[i] == report;
            assert(all[i].field == field);
        }
    }
}

/// The request that opens a session. Once serialized it is sent with the
/// **GET** method.
///
/// Every instance satisfies the rules of its two fields: there is no way to
/// make one but [`Login::new`], and none to change one.
#[derive(Debug)]
pub struct Login {
    email: String,
    password: String,
}

impl View for Login {
    type V = LoginView;

    closed spec fn view(&self) -> LoginView {
        LoginView { email: self.email@, password: self.password@ }
    }
}

impl Login {
    #[verifier::type_invariant]
    spec fn satisfies_rules(self) -> bool {
        self@.valid() && self.email@.contains('@')
    }

    /// Makes a login of the two values if they break no rule, and keeps them
    /// as they are. Otherwise reports every rule that they break.
    pub fn new(email: String, password: String) -> (made: Result<Login, ValidationError>)
        ensures
            ({
                let given = LoginView { email: email@, password: password@ };
                match made {
                    Ok(login) => given.valid() && login@ == given && email@.contains('@'),
                    Err(error) => !given.valid() && error@ == given.violations(),
                }
            }),
    {
        let ghost given = LoginView { email: email@, password: password@ };
        let mut found: Vec<Violation> = Vec::new();
        validate_field(Field::Email, email.as_str(), &mut found);
        validate_field(Field::Password, password.as_str(), &mut found);
        proof {
            assert(found@ == given.violations());
            given.lemma_valid();
        }
        if found.len() == 0 {
            Ok(Login { email, password })
        } else {
            Err(ValidationError::from_violations(found))
        }
    }

    /// The e-mail address, as it was given.
    pub fn email(&self) -> (email: &str)
        ensures
            email@ == self@.email,
            self@.valid(),
            email@.contains('@'),
    {
        proof {
            use_type_invariant(self);
        }
        self.email.as_str()
    }

    /// The password, as it was given.
    pub fn password(&self) -> (password: &str)
        ensures
            password@ == self@.password,
            self@.valid(),
    {
        proof {
            use_type_invariant(self);
        }
        self.password.as_str()
    }
}

impl PartialEq for Login {
    /// Two logins are equal when their two fields are.
    fn eq(&self, other: &Login) -> (equal: bool) {
        self.email == other.email && self.password == other.password
    }
}

impl Eq for Login {

}

impl vstd::std_specs::cmp::PartialEqSpecImpl for Login {
    open spec fn obeys_eq_spec() -> bool {
        true
    }

    open spec fn eq_spec(&self, other: &Login) -> bool {
        self@ == other@
    }
}

} // verus!

use fitflow_auth::error::validate_field;
use fitflow_auth::{Constraint, Field, Violation};
use validator::{ValidateEmail, ValidateLength};

const FIELDS: [Field; 5] =
    [Field::Email, Field::FirstName, Field::LastName, Field::Password, Field::Key];

#[test]
fn fields_travel_under_their_names() {
    assert_eq!(Field::Email.name(), "email");
    assert_eq!(Field::FirstName.name(), "first_name");
    assert_eq!(Field::LastName.name(), "last_name");
    assert_eq!(Field::Password.name(), "password");
    assert_eq!(Field::Key.name(), "key");
}

#[test]
fn fields_list_their_rules() {
    assert_eq!(
        Field::Email.constraints(),
        vec![Constraint::EmailFormat, Constraint::LengthRange { min: 6, max: 128 }]
    );
    assert_eq!(Field::FirstName.constraints(), vec![Constraint::LengthRange { min: 2, max: 32 }]);
    assert_eq!(Field::LastName.constraints(), vec![Constraint::LengthRange { min: 2, max: 32 }]);
    assert_eq!(Field::Password.constraints(), vec![Constraint::LengthRange { min: 8, max: 64 }]);
    assert_eq!(Field::Key.constraints(), vec![Constraint::LengthExact { expected: 256 }]);
}

#[test]
fn email_format_accepts_addresses() {
    for address in [
        "email@here.com",
        "weirder-email@here.and.there.com",
        "!def!xyz%abc@example.com",
        "email@[127.0.0.1]",
        "email@localhost",
        "test@domain.with.idn.tld.उदाहरण.परीक्षा",
    ] {
        assert!(Constraint::EmailFormat.check(address), "{address}");
    }
}

#[test]
fn email_format_rejects_what_is_no_address() {
    for address in [
        "",
        "abc",
        "abc@",
        "@domain.com",
        "abc@bar",
        "a @x.cz",
        "a b@c.de",
        "not-an-email",
        "example@invalid-.com",
        "example@-invalid.com",
        "trailingdot@shouldfail.com.",
        "email@[127.0.0.256]",
        "\"quoted\"@example.com",
    ] {
        assert_eq!(Constraint::EmailFormat.check(address), address == "abc@bar", "{address}");
    }
}

#[test]
fn email_format_caps_the_local_part_at_64_characters() {
    assert!(Constraint::EmailFormat.check(&format!("{}@mail.com", "a".repeat(64))));
    assert!(!Constraint::EmailFormat.check(&format!("{}@mail.com", "a".repeat(65))));
}

#[test]
fn email_format_answers_as_the_validator_does() {
    for address in ["email@here.com", "abc", "a@b", "a@b.c", "é@example.com", "x@example..com"] {
        assert_eq!(Constraint::EmailFormat.check(address), address.validate_email(), "{address}");
    }
}

#[test]
fn length_range_includes_both_bounds() {
    let rule = Constraint::LengthRange { min: 2, max: 4 };
    assert!(!rule.check(""));
    assert!(!rule.check("a"));
    assert!(rule.check("ab"));
    assert!(rule.check("abc"));
    assert!(rule.check("abcd"));
    assert!(!rule.check("abcde"));
}

#[test]
fn length_range_may_be_empty() {
    let rule = Constraint::LengthRange { min: 3, max: 2 };
    assert!(!rule.check("ab"));
    assert!(!rule.check("abc"));
}

#[test]
fn length_exact_takes_one_length_only() {
    let rule = Constraint::LengthExact { expected: 3 };
    assert!(!rule.check("ab"));
    assert!(rule.check("abc"));
    assert!(!rule.check("abcd"));
    assert!(Constraint::LengthExact { expected: 0 }.check(""));
}

#[test]
fn lengths_are_counted_in_characters() {
    assert!(Constraint::LengthExact { expected: 2 }.check("日本"));
    assert!(!Constraint::LengthExact { expected: 6 }.check("日本"));
    assert!(Constraint::LengthRange { min: 1, max: 1 }.check("𝄞"));
}

#[test]
fn lengths_answer_as_the_validator_does() {
    for value in ["", "a", "ab", "日本", "abcdefgh"] {
        for (min, max) in [(0, 0), (1, 2), (2, 8), (9, 1)] {
            assert_eq!(
                Constraint::LengthRange { min, max }.check(value),
                value.validate_length(Some(min), Some(max), None)
            );
        }
        for expected in [0, 1, 2, 6, 8] {
            assert_eq!(
                Constraint::LengthExact { expected }.check(value),
                value.validate_length(None, None, Some(expected))
            );
        }
    }
}

#[test]
fn a_field_reports_each_rule_that_its_value_breaks() {
    let mut found = Vec::new();
    validate_field(Field::Email, "bad", &mut found);
    assert_eq!(
        found,
        vec![
            Violation { field: Field::Email, constraint: Constraint::EmailFormat },
            Violation {
                field: Field::Email,
                constraint: Constraint::LengthRange { min: 6, max: 128 },
            },
        ]
    );
}

#[test]
fn a_field_appends_to_what_was_found_before() {
    let before = Violation { field: Field::Key, constraint: Constraint::EmailFormat };
    let mut found = vec![before];
    validate_field(Field::Password, "long enough", &mut found);
    assert_eq!(found, vec![before]);
    validate_field(Field::Password, "short", &mut found);
    validate_field(Field::Key, "short", &mut found);
    assert_eq!(
        found,
        vec![
            before,
            Violation {
                field: Field::Password,
                constraint: Constraint::LengthRange { min: 8, max: 64 },
            },
            Violation { field: Field::Key, constraint: Constraint::LengthExact { expected: 256 } },
        ]
    );
}

#[test]
fn a_field_reports_a_rule_exactly_when_the_rule_fails() {
    let values = ["", "a", "a@b.c", "email@domain.com", "not-an-email", "12345678"];
    for field in FIELDS {
        for value in values {
            let mut found = Vec::new();
            validate_field(field, value, &mut found);
            let expected: Vec<Violation> = field
                .constraints()
                .into_iter()
                .filter(|rule| !rule.check(value))
                .map(|rule| Violation { field, constraint: rule })
                .collect();
            assert_eq!(found, expected);
        }
    }
}

use fitflow_auth::{Constraint, Field, Login, Violation};

#[test]
fn login_keeps_the_values_it_was_given() {
    let made = Login::new("email@domain.com".into(), "mySecurePassword11*".into()).unwrap();
    assert_eq!(made.email(), "email@domain.com");
    assert_eq!(made.password(), "mySecurePassword11*");
}

#[test]
fn login_reports_the_email_twice_and_the_password() {
    let error = Login::new("bad".into(), "short".into()).unwrap_err();
    assert!(error.cites(Field::Email));
    assert!(error.cites(Field::Password));
    assert_eq!(
        error.violations(),
        &vec![
            Violation { field: Field::Email, constraint: Constraint::EmailFormat },
            Violation {
                field: Field::Email,
                constraint: Constraint::LengthRange { min: 6, max: 128 },
            },
            Violation {
                field: Field::Password,
                constraint: Constraint::LengthRange { min: 8, max: 64 },
            },
        ]
    );
}

#[test]
fn login_has_no_names_to_report() {
    let error = Login::new("".into(), "".into()).unwrap_err();
    assert_eq!(error.len(), 3);
    assert!(!error.cites(Field::FirstName));
    assert!(!error.cites(Field::LastName));
    assert!(!error.cites(Field::Key));
}

#[test]
fn login_bounds_the_email() {
    let long = |length: usize| format!("{}@{}.org", "u".repeat(64), "d".repeat(length - 69));
    let expected = vec![Violation {
        field: Field::Email,
        constraint: Constraint::LengthRange { min: 6, max: 128 },
    }];
    assert_eq!(
        Login::new("a@b.c".into(), "password".into()).unwrap_err().violations(),
        &expected
    );
    assert!(Login::new("a@b.cd".into(), "password".into()).is_ok());
    assert!(Login::new(long(128), "password".into()).is_ok());
    assert_eq!(Login::new(long(129), "password".into()).unwrap_err().violations(), &expected);
}

#[test]
fn login_bounds_the_password() {
    let expected = vec![Violation {
        field: Field::Password,
        constraint: Constraint::LengthRange { min: 8, max: 64 },
    }];
    let with_password = |password: String| Login::new("email@domain.com".into(), password);
    assert_eq!(with_password("p".repeat(7)).unwrap_err().violations(), &expected);
    assert_eq!(with_password("p".repeat(8)).unwrap().password(), "p".repeat(8));
    assert_eq!(with_password("p".repeat(64)).unwrap().password(), "p".repeat(64));
    assert_eq!(with_password("p".repeat(65)).unwrap_err().violations(), &expected);
}

#[test]
fn logins_compare_by_their_fields() {
    let one = Login::new("email@domain.com".into(), "password".into()).unwrap();
    assert_eq!(one, Login::new("email@domain.com".into(), "password".into()).unwrap());
    assert_ne!(one, Login::new("email@domain.com".into(), "password1".into()).unwrap());
    assert_ne!(one, Login::new("email@domain.org".into(), "password".into()).unwrap());
}

#[test]
fn login_survives_a_trip_through_json() {
    let made = Login::new("email@domain.com".into(), "mySecurePassword11*".into()).unwrap();
    let mut object = serde_json::Map::new();
    object.insert(Field::Email.name().to_owned(), made.email().into());
    object.insert(Field::Password.name().to_owned(), made.password().into());
    let text = serde_json::to_string(&serde_json::Value::Object(object)).unwrap();
    assert_eq!(text, r#"{"email":"email@domain.com","password":"mySecurePassword11*"}"#);

    let read: serde_json::Value = serde_json::from_str(&text).unwrap();
    let again = Login::new(
        read["email"].as_str().unwrap().to_owned(),
        read["password"].as_str().unwrap().to_owned(),
    )
    .unwrap();
    assert_eq!(again, made);
}

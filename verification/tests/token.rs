use fitflow_auth::response::Token;
use fitflow_auth::{Constraint, Field, Violation};

fn key_length_report() -> Vec<Violation> {
    vec![Violation { field: Field::Key, constraint: Constraint::LengthExact { expected: 256 } }]
}

#[test]
fn token_keeps_a_key_of_256_characters() {
    let key = "A".repeat(256);
    let made = Token::new(key.clone()).unwrap();
    assert_eq!(made.key(), key);
}

#[test]
fn token_rejects_a_key_of_255_characters() {
    let error = Token::new("A".repeat(255)).unwrap_err();
    assert!(error.cites(Field::Key));
    assert_eq!(error.violations(), &key_length_report());
}

#[test]
fn token_rejects_a_key_of_257_characters() {
    let error = Token::new("A".repeat(257)).unwrap_err();
    assert!(error.cites(Field::Key));
    assert_eq!(error.violations(), &key_length_report());
}

#[test]
fn token_rejects_an_empty_key() {
    let error = Token::new(String::new()).unwrap_err();
    assert_eq!(error.len(), 1);
    assert_eq!(error.first(), key_length_report()[0]);
}

#[test]
fn token_counts_characters_not_bytes() {
    // 256 characters in 512 bytes are a key; 256 bytes in 128 characters are not.
    assert_eq!(Token::new("ß".repeat(256)).unwrap().key(), "ß".repeat(256));
    assert_eq!(Token::new("ß".repeat(128)).unwrap_err().violations(), &key_length_report());
}

#[test]
fn tokens_compare_by_their_keys() {
    let one = Token::new("A".repeat(256)).unwrap();
    assert_eq!(one, Token::new("A".repeat(256)).unwrap());
    assert_ne!(one, Token::new("B".repeat(256)).unwrap());
}

#[test]
fn token_is_read_from_json() {
    let text = format!(r#"{{"key":"{}"}}"#, "k".repeat(256));
    let read: serde_json::Value = serde_json::from_str(&text).unwrap();
    let made = Token::new(read[Field::Key.name()].as_str().unwrap().to_owned()).unwrap();

    let mut object = serde_json::Map::new();
    object.insert(Field::Key.name().to_owned(), made.key().into());
    assert_eq!(serde_json::to_string(&serde_json::Value::Object(object)).unwrap(), text);
}

#[test]
fn token_is_not_read_from_a_short_key_in_json() {
    let read: serde_json::Value = serde_json::from_str(r#"{"key":"too short"}"#).unwrap();
    let error = Token::new(read["key"].as_str().unwrap().to_owned()).unwrap_err();
    assert_eq!(error.violations(), &key_length_report());
}

use enigma_server::repository::experiment::{get_query, invalid_id, DocumentId};
use enigma_server::service::experiment::StoreError;

fn is_lower_hex(text: &str) -> bool {
    text.len() == 24 && text.chars().all(|c| c.is_ascii_digit() || ('a'..='f').contains(&c))
}

#[test]
fn an_id_in_lower_case_is_read_as_it_is() {
    let id = DocumentId::parse("507f1f77bcf86cd799439011").unwrap();
    assert_eq!(id.to_hex(), "507f1f77bcf86cd799439011");
    assert_eq!(id.clone().into_hex(), "507f1f77bcf86cd799439011");
}

#[test]
fn capital_letters_of_an_id_are_read_as_lower_case() {
    let id = DocumentId::parse("507F1F77BCF86CD799439011").unwrap();
    assert_eq!(id.to_hex(), "507f1f77bcf86cd799439011");
    let mixed = DocumentId::parse("ABCDEFabcdef0123456789aB").unwrap();
    assert_eq!(mixed.to_hex(), "abcdefabcdef0123456789ab");
    assert_eq!(id, DocumentId::parse("507f1f77bcf86cd799439011").unwrap());
}

#[test]
fn a_text_that_is_no_id_is_invalid_input() {
    match get_query("not-a-valid-id") {
        Err(StoreError::InvalidInput { message }) => {
            assert!(message.starts_with("invalid id pattern id(not-a-valid-id) "));
            assert!(message.len() > "invalid id pattern id(not-a-valid-id) ".len());
        }
        other => panic!("expected invalid input, got {:?}", other),
    }
}

#[test]
fn ids_of_the_wrong_length_or_digits_are_refused() {
    for text in [
        "",
        "507f1f77bcf86cd79943901",
        "507f1f77bcf86cd7994390111",
        "507f1f77bcf86cd79943901g",
        "507f1f77bcf86cd79943901 ",
        "507f1f77bcf86cd7994390é",
        "ééééééééééééééééééééééé\u{e9}",
    ] {
        match DocumentId::parse(text) {
            Err(StoreError::InvalidInput { message }) => {
                assert!(message.starts_with(&format!("invalid id pattern id({}) ", text)));
            }
            other => panic!("expected invalid input for {:?}, got {:?}", text, other),
        }
    }
}

#[test]
fn the_refusal_is_in_the_words_of_the_id_reader() {
    match DocumentId::parse("xyz") {
        Err(StoreError::InvalidInput { message }) => {
            assert_eq!(
                message,
                "invalid id pattern id(xyz) provided hex string representation must be exactly \
                 12 bytes, instead got: \"xyz\", length 3"
            );
        }
        other => panic!("expected invalid input, got {:?}", other),
    }
    match DocumentId::parse("507f1f77bcf86cd79943901g") {
        Err(StoreError::InvalidInput { message }) => {
            assert_eq!(
                message,
                "invalid id pattern id(507f1f77bcf86cd79943901g) invalid character 'g' was found \
                 at index 23 in the provided hex string: \"507f1f77bcf86cd79943901g\""
            );
        }
        other => panic!("expected invalid input, got {:?}", other),
    }
}

#[test]
fn a_new_id_is_written_as_the_store_writes_it() {
    let a = DocumentId::mint();
    let b = DocumentId::mint();
    assert!(is_lower_hex(&a.to_hex()));
    assert!(is_lower_hex(&b.to_hex()));
    assert_ne!(a, b);
    assert_eq!(DocumentId::parse(&a.to_hex()).unwrap(), a);
}

#[test]
fn invalid_input_says_the_text_and_the_reason() {
    assert_eq!(
        invalid_id("abc", "is too short"),
        StoreError::InvalidInput { message: "invalid id pattern id(abc) is too short".to_string() }
    );
    assert_eq!(
        invalid_id("", ""),
        StoreError::InvalidInput { message: "invalid id pattern id() ".to_string() }
    );
}

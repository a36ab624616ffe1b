use simplepush_rs::{Message, SimplePush};

#[test]
fn test_empty_key() {
    let result = SimplePush::validate(&Message::new("", Some("title"), "message", None, None));
    assert!(result.is_err_and(|e| e == *"key is required"));
}

#[test]
fn test_empty_message() {
    let result = SimplePush::validate(&Message::new("key", None, "", None, None));
    assert!(result.is_err_and(|e| e == *"a message or title is required"));
}

#[test]
fn test_empty_password_with_encryption() {
    let result = SimplePush::validate(&Message::new_with_encryption(
        "key", None, "message", None, None, "", None,
    ));
    assert!(result.is_err_and(|e| e == *"password is required for encryption"));
}

#[test]
fn test_valid_plain_message() {
    let result = SimplePush::validate(&Message::new("key", None, "message", None, None));
    assert!(result.is_ok());
}

#[test]
fn test_title_alone_is_content() {
    let result = SimplePush::validate(&Message::new("key", Some("title"), "", None, None));
    assert!(result.is_ok());
}

#[test]
fn test_empty_password_without_encryption() {
    // A password only matters when the message encrypts: a plaintext
    // message with an empty password present still validates.
    let mut message = Message::new("key", None, "message", None, None);
    message.password = Some(String::new());
    let result = SimplePush::validate(&message);
    assert!(result.is_ok());
}

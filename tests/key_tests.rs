use kv_rust::key::MAX_LENGTH;
use kv_rust::{Key, KeyError};

#[test]
fn test_valid_alphanumeric() {
    assert!(Key::new("validkey".to_string()).is_ok());
    assert!(Key::new("test123".to_string()).is_ok());
    assert!(Key::new("KEY456".to_string()).is_ok());
    assert!(Key::new("MixedCase123".to_string()).is_ok());
}

#[test]
fn test_valid_with_underscore() {
    assert!(Key::new("user_id".to_string()).is_ok());
    assert!(Key::new("test_key_123".to_string()).is_ok());
    assert!(Key::new("_leading".to_string()).is_ok());
    assert!(Key::new("trailing_".to_string()).is_ok());
}

#[test]
fn test_valid_with_hyphen() {
    assert!(Key::new("session-token".to_string()).is_ok());
    assert!(Key::new("my-key-123".to_string()).is_ok());
    assert!(Key::new("-leading".to_string()).is_ok());
    assert!(Key::new("trailing-".to_string()).is_ok());
}

#[test]
fn test_valid_mixed_separators() {
    assert!(Key::new("my_key-123".to_string()).is_ok());
    assert!(Key::new("user-id_token".to_string()).is_ok());
}

#[test]
fn test_valid_single_character() {
    assert!(Key::new("a".to_string()).is_ok());
    assert!(Key::new("1".to_string()).is_ok());
    assert!(Key::new("_".to_string()).is_ok());
    assert!(Key::new("-".to_string()).is_ok());
}

#[test]
fn test_valid_max_length() {
    let max_key = "a".repeat(MAX_LENGTH);
    assert!(Key::new(max_key).is_ok());
}

#[test]
fn test_empty_key() {
    let result = Key::new("".to_string());
    assert!(matches!(result, Err(KeyError::Empty)));
}

#[test]
fn test_too_long_key() {
    let too_long = "a".repeat(MAX_LENGTH + 1);
    let result = Key::new(too_long);
    assert!(matches!(result, Err(KeyError::TooLong)));
}

#[test]
fn test_way_too_long_key() {
    let way_too_long = "a".repeat(1000);
    let result = Key::new(way_too_long);
    assert!(matches!(result, Err(KeyError::TooLong)));
}

#[test]
fn test_invalid_space() {
    assert!(matches!(
        Key::new("has space".to_string()),
        Err(KeyError::InvalidCharacters)
    ));
    assert!(matches!(
        Key::new("has  double  space".to_string()),
        Err(KeyError::InvalidCharacters)
    ));
}

#[test]
fn test_invalid_special_characters() {
    let invalid_chars = vec![
        "test@email",
        "key#value",
        "price$100",
        "percent%",
        "caret^",
        "ampersand&",
        "star*",
        "plus+",
        "equals=",
        "brackets[]",
        "braces{}",
        "parens()",
        "pipe|",
        "backslash\\",
        "forward/slash",
        "colon:key",
        "semicolon;",
        "quotes\"",
        "apostrophe'",
        "less<than",
        "greater>than",
        "question?",
        "exclaim!",
        "tilde~",
        "backtick`",
    ];

    for invalid in invalid_chars {
        assert!(
            matches!(
                Key::new(invalid.to_string()),
                Err(KeyError::InvalidCharacters)
            ),
            "Should reject key with invalid character: {}",
            invalid
        );
    }
}

#[test]
fn test_invalid_unicode() {
    assert!(matches!(
        Key::new("emoji\u{1F600}".to_string()),
        Err(KeyError::InvalidCharacters)
    ));
}

#[test]
fn test_invalid_dots() {
    assert!(matches!(
        Key::new("config.theme".to_string()),
        Err(KeyError::InvalidCharacters)
    ));
}

#[test]
fn test_leading_whitespace() {
    assert!(Key::new(" key".to_string()).is_err());
}

#[test]
fn test_trailing_whitespace() {
    assert!(Key::new("key ".to_string()).is_err());
}

#[test]
fn test_surrounding_whitespace() {
    assert!(Key::new(" key ".to_string()).is_err());
}

#[test]
fn test_tab_character() {
    assert!(Key::new("key\tvalue".to_string()).is_err());
}

#[test]
fn test_newline_character() {
    assert!(Key::new("key\nvalue".to_string()).is_err());
}

#[test]
fn test_as_str() {
    let key = Key::new("test-key".to_string()).unwrap();
    assert_eq!(key.as_str(), "test-key");
}

#[test]
fn test_into_string() {
    let key = Key::new("test-key".to_string()).unwrap();
    assert_eq!(key.into_string(), "test-key".to_string());
}

#[test]
fn test_try_from_valid() {
    let result: Result<Key, KeyError> = "valid-key".to_string().try_into();
    assert!(result.is_ok());
}

#[test]
fn test_try_from_invalid() {
    let result: Result<Key, KeyError> = "invalid key!".to_string().try_into();
    assert!(result.is_err());
}

#[test]
fn test_into_string_conversion() {
    let key = Key::new("test".to_string()).unwrap();
    let s: String = key.into();
    assert_eq!(s, "test");
}

#[test]
fn test_error_messages() {
    assert_eq!(KeyError::Empty.to_string(), "Key cannot be empty");
    assert_eq!(
        KeyError::TooLong.to_string(),
        "Key exceeds maximum length of 255 characters"
    );
    assert_eq!(
        KeyError::InvalidCharacters.to_string(),
        "Key contains invalid characters (only a-z, A-Z, 0-9, _, - allowed)"
    );
    assert_eq!(
        KeyError::Whitespace.to_string(),
        "Key cannot have leading or trailing whitespace"
    );
}

#[test]
fn test_all_numbers() {
    assert!(Key::new("123456789".to_string()).is_ok());
}

#[test]
fn test_all_underscores() {
    assert!(Key::new("___".to_string()).is_ok());
}

#[test]
fn test_all_hyphens() {
    assert!(Key::new("---".to_string()).is_ok());
}

#[test]
fn test_mixed_case() {
    assert!(Key::new("MyKeyName".to_string()).is_ok());
    assert!(Key::new("camelCase".to_string()).is_ok());
    assert!(Key::new("PascalCase".to_string()).is_ok());
    assert!(Key::new("SCREAMING_SNAKE_CASE".to_string()).is_ok());
    assert!(Key::new("kebab-case".to_string()).is_ok());
}

#[test]
fn test_clone() {
    let key1 = Key::new("test".to_string()).unwrap();
    let key2 = key1.clone();
    assert_eq!(key1, key2);
}

#[test]
fn test_equality() {
    let key1 = Key::new("test".to_string()).unwrap();
    let key2 = Key::new("test".to_string()).unwrap();
    let key3 = Key::new("other".to_string()).unwrap();

    assert_eq!(key1, key2);
    assert_ne!(key1, key3);
}

#[test]
fn valid_text_round_trips_through_its_string() {
    for text in ["a", "user-123", "_x_", "Ab9-_", "\u{44f}\u{43f}\u{43e}\u{43d}"] {
        let key = Key::new(text.to_string()).unwrap();
        let back: Key = key.clone().into_string().try_into().unwrap();
        assert_eq!(back, key);
        assert_eq!(back.as_str(), text);
    }
}

#[test]
fn unicode_letters_are_accepted() {
    assert!(Key::new("\u{44f}\u{43f}\u{43e}\u{43d}\u{441}\u{43a}\u{438}\u{439}".to_string()).is_ok());
    assert!(Key::new("\u{4e2d}\u{6587}".to_string()).is_ok());
}

#[test]
fn length_counts_characters_not_bytes() {
    let two_byte = "\u{44f}";
    assert!(Key::new(two_byte.repeat(128)).is_ok());
    assert!(Key::new(two_byte.repeat(MAX_LENGTH)).is_ok());
    assert!(matches!(
        Key::new(two_byte.repeat(MAX_LENGTH + 1)),
        Err(KeyError::TooLong)
    ));
}

#[test]
fn bad_character_in_a_long_encoding_is_still_reported() {
    let mut text = "\u{e9}".repeat(128);
    text.push(' ');
    assert!(matches!(Key::new(text), Err(KeyError::InvalidCharacters)));
}

#[test]
fn emptiness_is_checked_before_anything_else() {
    assert!(matches!(Key::new(String::new()), Err(KeyError::Empty)));
}

#[test]
fn length_is_checked_before_characters() {
    let long_with_space = format!("{} ", "a".repeat(MAX_LENGTH));
    assert!(matches!(Key::new(long_with_space), Err(KeyError::TooLong)));
    assert!(matches!(
        Key::new(" ".repeat(300)),
        Err(KeyError::TooLong)
    ));
}

#[test]
fn bad_character_is_reported_at_any_position_up_to_the_limit() {
    let mut text = "a".repeat(MAX_LENGTH - 1);
    text.push('.');
    assert!(matches!(Key::new(text), Err(KeyError::InvalidCharacters)));
    let mut text = " ".to_string();
    text.push_str(&"a".repeat(MAX_LENGTH - 1));
    assert!(matches!(Key::new(text), Err(KeyError::InvalidCharacters)));
}

#[test]
fn whitespace_is_reported_as_invalid_characters() {
    for text in [" key", "key ", " key ", "key\tvalue", "key\nvalue", "a\u{a0}b"] {
        assert!(matches!(
            Key::new(text.to_string()),
            Err(KeyError::InvalidCharacters)
        ));
    }
}

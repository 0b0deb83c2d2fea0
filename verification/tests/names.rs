use gensui::worker::name_registry::NameRegistry;
use gensui::worker::name_validator::{NameValidationError, NameValidator};
use gensui::worker::WorkerId;

#[test]
fn test_name_registry_uniqueness() {
    let mut registry = NameRegistry::new();
    let id1 = WorkerId(1);
    let id2 = WorkerId(2);
    assert!(registry.register("worker1".to_string(), id1).is_ok());
    assert!(registry.register("worker1".to_string(), id2).is_err());
}

#[test]
fn test_name_registry_rename() {
    let mut registry = NameRegistry::new();
    let id = WorkerId(1);
    registry.register("old_name".to_string(), id).unwrap();
    assert!(registry.rename("old_name", "new_name".to_string(), id).is_ok());
    assert!(registry.is_available("old_name"));
    assert!(!registry.is_available("new_name"));
    assert_eq!(registry.get_id("new_name"), Some(id));
}

#[test]
fn test_name_registry_rename_conflict() {
    let mut registry = NameRegistry::new();
    let id1 = WorkerId(1);
    let id2 = WorkerId(2);
    registry.register("worker1".to_string(), id1).unwrap();
    registry.register("worker2".to_string(), id2).unwrap();
    assert!(registry.rename("worker1", "worker2".to_string(), id1).is_err());
}

#[test]
fn test_name_registry_rename_same_name() {
    let mut registry = NameRegistry::new();
    let id = WorkerId(1);
    registry.register("worker1".to_string(), id).unwrap();
    assert!(registry.rename("worker1", "worker1".to_string(), id).is_ok());
}

#[test]
fn test_name_registry_unregister() {
    let mut registry = NameRegistry::new();
    let id = WorkerId(1);
    registry.register("worker1".to_string(), id).unwrap();
    assert!(!registry.is_available("worker1"));
    registry.unregister("worker1");
    assert!(registry.is_available("worker1"));
}

#[test]
fn test_name_registry_is_available() {
    let mut registry = NameRegistry::new();
    let id = WorkerId(1);
    assert!(registry.is_available("worker1"));
    registry.register("worker1".to_string(), id).unwrap();
    assert!(!registry.is_available("worker1"));
}

#[test]
fn test_name_registry_get_id() {
    let mut registry = NameRegistry::new();
    let id = WorkerId(1);
    assert_eq!(registry.get_id("worker1"), None);
    registry.register("worker1".to_string(), id).unwrap();
    assert_eq!(registry.get_id("worker1"), Some(id));
}

#[test]
fn test_name_validation_valid() {
    let validator = NameValidator::new();
    assert!(validator.validate("auth-feature").is_ok());
    assert!(validator.validate("認証機能").is_ok());
    assert!(validator.validate("worker_123").is_ok());
    assert!(validator.validate("MyWorker").is_ok());
    assert!(validator.validate("a").is_ok());
}

#[test]
fn test_name_validation_invalid_characters() {
    let validator = NameValidator::new();
    assert!(validator.validate("worker/name").is_err());
    assert!(validator.validate("worker:name").is_err());
    assert!(validator.validate("worker\\name").is_err());
    assert!(validator.validate("worker*name").is_err());
    assert!(validator.validate("worker?name").is_err());
    assert!(validator.validate("worker\"name").is_err());
    assert!(validator.validate("worker<name").is_err());
    assert!(validator.validate("worker>name").is_err());
    assert!(validator.validate("worker|name").is_err());
}

#[test]
fn test_name_validation_length() {
    let validator = NameValidator::new();
    assert!(validator.validate("").is_err());
    assert!(validator.validate(&"a".repeat(65)).is_err());
    assert!(validator.validate(&"a".repeat(64)).is_ok());
    assert!(validator.validate(&"a".repeat(1)).is_ok());
}

#[test]
fn test_name_validation_empty() {
    let validator = NameValidator::new();
    match validator.validate("") {
        Err(NameValidationError::Empty) => {}
        _ => panic!("Expected Empty error"),
    }
}

#[test]
fn test_name_validation_too_long() {
    let validator = NameValidator::new();
    match validator.validate(&"a".repeat(65)) {
        Err(NameValidationError::TooLong) => {}
        _ => panic!("Expected TooLong error"),
    }
}

#[test]
fn test_name_validation_japanese_chars() {
    let validator = NameValidator::new();
    assert!(validator.validate("あいうえお").is_ok());
    assert!(validator.validate("アイウエオ").is_ok());
    assert!(validator.validate("漢字テスト").is_ok());
    assert!(validator.validate("mix英語日本語123").is_ok());
}

#[test]
fn the_characters_that_are_not_allowed_are_named() {
    let validator = NameValidator::new();
    match validator.validate("a/b c!") {
        Err(NameValidationError::InvalidCharacters(chars)) => assert_eq!(chars, "/ !"),
        _ => panic!("expected the characters"),
    }
    // Punctuation of Japanese is not named, but not allowed either.
    match validator.validate("名前。") {
        Err(NameValidationError::InvalidCharacters(chars)) => assert_eq!(chars, ""),
        _ => panic!("expected the characters"),
    }
    assert_eq!(NameValidationError::Empty.message(), "Worker name is empty");
    assert_eq!(
        NameValidationError::TooLong.message(),
        "Worker name exceeds maximum length of 64 characters"
    );
    assert_eq!(
        NameValidationError::InvalidCharacters("/".to_string()).message(),
        "Worker name contains invalid characters: /"
    );
}

#[test]
fn the_length_of_a_name_is_counted_in_characters() {
    let validator = NameValidator::new();
    assert!(validator.validate(&"あ".repeat(22)).is_ok());
    assert!(validator.validate(&"あ".repeat(64)).is_ok());
    assert!(matches!(validator.validate(&"あ".repeat(65)), Err(NameValidationError::TooLong)));
    assert!(matches!(validator.validate(&"!".repeat(65)), Err(NameValidationError::TooLong)));
}

#[test]
fn a_name_may_hold_long_vowels() {
    let validator = NameValidator::new();
    assert!(validator.validate("ワーカー").is_ok());
    assert!(validator.validate("らーめん_1").is_ok());
    assert!(validator.validate("・").is_err());
}

#[test]
fn scripts_outside_the_table_are_refused() {
    let validator = NameValidator::new();
    assert!(validator.validate("имя").is_err());
    assert!(validator.validate("ｱｲｳ").is_ok());
    assert!(validator.validate("a\nb").is_err());
    assert!(validator.validate("a\n").is_err());
}

#[test]
fn a_rename_can_be_undone() {
    let mut registry = NameRegistry::new();
    registry.register("a".to_string(), WorkerId(1)).unwrap();
    registry.register("b".to_string(), WorkerId(2)).unwrap();
    registry.rename("a", "c".to_string(), WorkerId(1)).unwrap();
    registry.rename("c", "a".to_string(), WorkerId(1)).unwrap();
    assert_eq!(registry.get_id("a"), Some(WorkerId(1)));
    assert_eq!(registry.get_id("b"), Some(WorkerId(2)));
    assert_eq!(registry.get_id("c"), None);
}

use transaction_store::StoreError;

#[test]
fn message_of_a_path_resolution_failure() {
    assert_eq!(
        StoreError::PathResolution.message(),
        "Failed to get data file path: Failed to get app data directory"
    );
}

#[test]
fn message_of_a_directory_creation_failure() {
    assert_eq!(
        StoreError::DirectoryCreation("Permission denied (os error 13)".to_string()).message(),
        "Failed to get data file path: Permission denied (os error 13)"
    );
}

#[test]
fn message_of_a_serialization_failure() {
    assert_eq!(
        StoreError::Serialization("key must be a string".to_string()).message(),
        "Failed to serialize transactions: key must be a string"
    );
}

#[test]
fn message_of_a_write_failure() {
    assert_eq!(
        StoreError::Write("No space left on device (os error 28)".to_string()).message(),
        "Failed to write transactions file: No space left on device (os error 28)"
    );
}

#[test]
fn message_of_a_read_failure() {
    assert_eq!(
        StoreError::Read("stream did not contain valid UTF-8".to_string()).message(),
        "Failed to read transactions file: stream did not contain valid UTF-8"
    );
}

#[test]
fn message_of_a_deserialization_failure() {
    assert_eq!(
        StoreError::Deserialization("missing field `id`".to_string()).message(),
        "Failed to parse transactions: missing field `id`"
    );
    assert_eq!(
        StoreError::Deserialization(String::new()).message(),
        "Failed to parse transactions: "
    );
}

use prexager::storage_error::{StorageError, StorageErrorCode};

#[test]
fn test_error_code_mapping() {
    let db_err = StorageError::Database("execute failed".to_string());
    assert_eq!(db_err.code(), StorageErrorCode::Transient);
    assert!(db_err.is_transient());

    let not_found = StorageError::NotFound("question_123".to_string());
    assert_eq!(not_found.code(), StorageErrorCode::NotFound);
    assert!(!not_found.is_transient());
}

#[test]
fn test_from_conversions() {
    // The From conversions back `?` propagation
    let json_err: serde_json::Error =
        serde_json::from_str::<serde_json::Value>("invalid").unwrap_err();
    let storage_err: StorageError = json_err.into();

    assert!(matches!(storage_err, StorageError::Serialization(_)));
    assert!(!storage_err.is_transient());
}

#[test]
fn every_variant_has_its_code() {
    let io = StorageError::from(std::io::Error::new(std::io::ErrorKind::Other, "disk"));
    assert!(matches!(io, StorageError::Io(_)));
    assert_eq!(io.code(), StorageErrorCode::Transient);
    assert!(io.is_transient());

    let json_err = serde_json::from_str::<serde_json::Value>("{").unwrap_err();
    let ser = StorageError::from(json_err);
    assert_eq!(ser.code(), StorageErrorCode::Permanent);

    let cases = [
        (StorageError::InvalidInput("x".to_string()), StorageErrorCode::Permanent),
        (StorageError::Graph("cycle".to_string()), StorageErrorCode::Internal),
        (StorageError::VectorSearch("dim".to_string()), StorageErrorCode::Internal),
        (StorageError::NotFound("q".to_string()), StorageErrorCode::NotFound),
        (StorageError::Database("lock".to_string()), StorageErrorCode::Transient),
    ];
    for (e, code) in cases {
        assert_eq!(e.code(), code);
        assert_eq!(e.is_transient(), code == StorageErrorCode::Transient);
    }
}

use rust_server::errors::{AppError, ErrorKind};

#[test]
fn test_not_found_error() {
    let error = AppError::NotFound("Resource not found".to_string());
    assert_eq!(error.to_string(), "Not Found: Resource not found");
    assert_eq!(error.status_code(), 404);

    let body = error.error_response();
    assert_eq!(body.status, 404);
    assert_eq!(body.error, "not_found");
    assert_eq!(body.message, "Resource not found");
    assert_eq!(body.error_code, Some("ERR_NOT_FOUND".to_string()));
    assert!(!body.timestamp.is_empty());
}

#[test]
fn test_validation_error() {
    let error = AppError::ValidationError("Invalid input".to_string());
    assert_eq!(error.to_string(), "Validation Error: Invalid input");
    assert_eq!(error.status_code(), 400);

    let body = error.error_response();
    assert_eq!(body.error, "validation_error");
    assert_eq!(body.message, "Invalid input");
    assert_eq!(body.error_code, Some("ERR_VALIDATION".to_string()));
    assert!(!body.timestamp.is_empty());
}

#[test]
fn test_error_conversions() {
    let mongo_error =
        mongodb::error::Error::from(std::io::Error::new(std::io::ErrorKind::Other, "DB error"));
    let app_error: AppError = mongo_error.into();
    assert!(matches!(app_error, AppError::DatabaseError(_)));

    let json_error = serde_json::from_str::<serde_json::Value>("invalid json").unwrap_err();
    let app_error: AppError = json_error.into();
    assert!(matches!(app_error, AppError::SerializationError(_)));

    let io_error = std::io::Error::new(std::io::ErrorKind::Other, "IO error");
    let app_error: AppError = io_error.into();
    assert!(matches!(app_error, AppError::IoError(_)));
}

#[test]
fn conversion_messages_carry_the_cause() {
    let io_error = std::io::Error::new(std::io::ErrorKind::Other, "IO error");
    let app_error: AppError = io_error.into();
    assert_eq!(app_error.message(), "IO operation failed: IO error");
}

#[test]
fn test_error_response_structure() {
    let error = AppError::InternalServerError("Server error".to_string());
    let body = error.error_response();
    assert_eq!(body.status, 500);
    assert_eq!(body.error, "internal_server_error");
    assert_eq!(body.message, "Server error");
    assert_eq!(body.error_code, Some("ERR_SERVER".to_string()));
    assert!(!body.timestamp.is_empty());
}

#[test]
fn every_kind_has_its_status_name_and_code() {
    let table = [
        (ErrorKind::NotFound, 404, "not_found", "ERR_NOT_FOUND", "Not Found"),
        (ErrorKind::ValidationError, 400, "validation_error", "ERR_VALIDATION", "Validation Error"),
        (ErrorKind::DatabaseError, 500, "database_error", "ERR_DATABASE", "Database Error"),
        (ErrorKind::InternalServerError, 500, "internal_server_error", "ERR_SERVER", "Internal Server Error"),
        (ErrorKind::InvalidObjectId, 400, "invalid_object_id", "ERR_INVALID_ID", "Invalid Object ID"),
        (ErrorKind::SerializationError, 400, "serialization_error", "ERR_SERIALIZATION", "Serialization Error"),
        (ErrorKind::IoError, 500, "io_error", "ERR_IO", "IO Error"),
    ];
    for (kind, status, name, code, title) in table {
        assert_eq!(kind.status_code(), status);
        assert_eq!(kind.name(), name);
        assert_eq!(kind.code(), code);
        assert_eq!(kind.title(), title);
        let e = AppError::new(kind, "x".to_string());
        assert_eq!(e.kind(), kind);
        assert_eq!(e.to_string(), format!("{}: x", title));
    }
}

#[test]
fn response_keeps_the_given_timestamp() {
    let e = AppError::InvalidObjectId("bad".to_string());
    let body = e.error_response_at("2024-01-01T00:00:00+00:00".to_string());
    assert_eq!(body.status, 400);
    assert_eq!(body.error, "invalid_object_id");
    assert_eq!(body.error_code, Some("ERR_INVALID_ID".to_string()));
    assert_eq!(body.timestamp, "2024-01-01T00:00:00+00:00");
}

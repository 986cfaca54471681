use axum::http::StatusCode;
use neuronprompter::errors::{ApiError, CoreError, DatabaseError, ServiceError};

fn validation(field: &str, message: &str) -> CoreError {
    CoreError::Validation { field: field.to_string(), message: message.to_string() }
}

#[test]
fn api_error_from_validation_returns_400() {
    let core_err = validation("title", "too long");
    let service_err = ServiceError::Core(core_err);
    let api_err = ApiError::from_service_error(&service_err);
    assert_eq!(api_err.status, StatusCode::BAD_REQUEST.as_u16());
    assert_eq!(api_err.body.code, "VALIDATION_ERROR");
}

#[test]
fn api_error_from_not_found_returns_404() {
    let core_err = CoreError::NotFound { entity: "prompt".to_string(), id: 42 };
    let service_err = ServiceError::Core(core_err);
    let api_err = ApiError::from_service_error(&service_err);
    assert_eq!(api_err.status, StatusCode::NOT_FOUND.as_u16());
    assert_eq!(api_err.body.code, "NOT_FOUND");
}

#[test]
fn api_error_from_duplicate_returns_409() {
    let core_err = CoreError::Duplicate {
        entity: "tag".to_string(),
        field: "name".to_string(),
        value: "rust".to_string(),
    };
    let service_err = ServiceError::Core(core_err);
    let api_err = ApiError::from_service_error(&service_err);
    assert_eq!(api_err.status, StatusCode::CONFLICT.as_u16());
    assert_eq!(api_err.body.code, "DUPLICATE");
}

#[test]
fn api_error_from_ollama_unavailable_returns_502() {
    let service_err = ServiceError::OllamaUnavailable("timeout".to_string());
    let api_err = ApiError::from_service_error(&service_err);
    assert_eq!(api_err.status, StatusCode::BAD_GATEWAY.as_u16());
    assert_eq!(api_err.body.code, "OLLAMA_UNAVAILABLE");
}

#[test]
fn api_error_from_db_core_not_found_returns_404() {
    let core_err = CoreError::NotFound { entity: "Prompt".to_string(), id: 99999 };
    let service_err = ServiceError::Database(DatabaseError::Core(core_err));
    let api_err = ApiError::from_service_error(&service_err);
    assert_eq!(api_err.status, StatusCode::NOT_FOUND.as_u16());
    assert_eq!(api_err.body.code, "NOT_FOUND");
}

#[test]
fn api_error_from_db_core_duplicate_returns_409() {
    let core_err = CoreError::Duplicate {
        entity: "User".to_string(),
        field: "username".to_string(),
        value: "alice".to_string(),
    };
    let service_err = ServiceError::Database(DatabaseError::Core(core_err));
    let api_err = ApiError::from_service_error(&service_err);
    assert_eq!(api_err.status, StatusCode::CONFLICT.as_u16());
    assert_eq!(api_err.body.code, "DUPLICATE");
}

#[test]
fn api_error_from_db_core_validation_returns_400() {
    let core_err = validation("tag_ids", "belongs to another user");
    let service_err = ServiceError::Database(DatabaseError::Core(core_err));
    let api_err = ApiError::from_service_error(&service_err);
    assert_eq!(api_err.status, StatusCode::BAD_REQUEST.as_u16());
    assert_eq!(api_err.body.code, "VALIDATION_ERROR");
}

#[test]
fn api_error_messages_hide_internal_details() {
    let cases = vec![
        (ServiceError::Database(DatabaseError::Storage("disk I/O".to_string())), 500, "DATABASE_ERROR", "An internal database error occurred"),
        (ServiceError::OllamaError("bad json".to_string()), 502, "OLLAMA_ERROR", "Ollama operation failed"),
        (ServiceError::IoError("/etc/passwd".to_string()), 500, "IO_ERROR", "An internal I/O error occurred"),
        (ServiceError::SerializationError("eof".to_string()), 500, "SERIALIZATION_ERROR", "A serialization error occurred"),
        (ServiceError::OllamaUnavailable("refused".to_string()), 502, "OLLAMA_UNAVAILABLE", "The Ollama service is currently unavailable"),
    ];
    for (err, status, code, message) in cases {
        let api = ApiError::from_service_error(&err);
        assert_eq!(api.status, status);
        assert_eq!(api.body.code, code);
        assert_eq!(api.body.message, message);
    }
}

#[test]
fn core_error_texts_and_codes() {
    let e = validation("title", "too long");
    assert_eq!(e.describe(), "title: too long");
    assert_eq!(ApiError::from_core_error(&e).body.message, "title: too long");

    let e = CoreError::NotFound { entity: "Prompt".to_string(), id: -7 };
    assert_eq!(e.describe(), "Prompt -7 not found");

    let e = CoreError::Duplicate { entity: "Tag".to_string(), field: "name".to_string(), value: "x".to_string() };
    assert_eq!(e.describe(), "Tag with name 'x' already exists");

    let e = CoreError::EntityInUse {
        entity_type: "script".to_string(),
        entity_id: 3,
        referencing_titles: vec!["Chain A".to_string()],
    };
    let api = ApiError::from_core_error(&e);
    assert_eq!(api.status, 409);
    assert_eq!(api.body.code, "SCRIPT_IN_USE");
    assert_eq!(api.body.message, "script 3 is still referenced by: Chain A");

    let e = CoreError::Authorization { message: "nope".to_string() };
    let api = ApiError::from_core_error(&e);
    assert_eq!((api.status, api.body.code.as_str()), (403, "AUTHORIZATION_ERROR"));
    assert_eq!(api.body.message, "not authorized: nope");

    let e = CoreError::PathTraversal { path: "/etc".to_string() };
    let api = ApiError::from_core_error(&e);
    assert_eq!((api.status, api.body.code.as_str(), api.body.message.as_str()), (403, "PATH_TRAVERSAL", "Path access denied"));

    let e = CoreError::Conflict { entity: "Prompt".to_string(), id: 1, expected: 2, actual: 3 };
    assert_eq!(e.describe(), "Prompt 1: expected version 2, found 3");
    let api = ApiError::from_core_error(&e);
    assert_eq!((api.status, api.body.code.as_str()), (409, "VERSION_CONFLICT"));
}

#[test]
fn service_error_texts() {
    assert_eq!(ServiceError::OllamaUnavailable("down".to_string()).describe(), "Ollama unavailable: down");
    assert_eq!(ServiceError::OllamaError("bad".to_string()).describe(), "Ollama error: bad");
    assert_eq!(ServiceError::IoError("gone".to_string()).describe(), "I/O error: gone");
    assert_eq!(ServiceError::SerializationError("eof".to_string()).describe(), "Serialization error: eof");
    assert_eq!(ServiceError::Core(validation("a", "b")).describe(), "a: b");
    assert_eq!(ServiceError::Database(DatabaseError::Storage("locked".to_string())).describe(), "locked");
}

#[test]
fn api_error_constructors_and_display() {
    let e = ApiError::internal("boom".to_string());
    assert_eq!((e.status, e.body.code.as_str(), e.body.message.as_str()), (500, "INTERNAL_ERROR", "boom"));
    let e = ApiError::clipboard("no clipboard".to_string());
    assert_eq!(e.body.code, "CLIPBOARD_ERROR");
    assert_eq!(e.to_display_string(), "[CLIPBOARD_ERROR] no clipboard");
}

#[test]
fn entity_in_use_names_the_referencing_chains() {
    let e = CoreError::EntityInUse {
        entity_type: "Prompt".to_string(),
        entity_id: 5,
        referencing_titles: vec!["Blocker".to_string(), "Other".to_string()],
    };
    assert_eq!(e.describe(), "Prompt 5 is still referenced by: Blocker, Other");
    assert!(ServiceError::Core(e).describe().contains("Blocker"));
}

use neuronprompter::errors::{CoreError, ServiceError};
use neuronprompter::settings::{check_extra, extra_json_verdict, validate_stored_extra, PatchUserSettingsPayload, UserSettings};

fn current() -> UserSettings {
    UserSettings {
        user_id: 1,
        theme: "light".to_string(),
        last_collection_id: Some(4),
        sidebar_collapsed: false,
        sort_field: "updated_at".to_string(),
        sort_direction: "desc".to_string(),
        ollama_base_url: "http://localhost:11434".to_string(),
        ollama_model: Some("llama3".to_string()),
        extra: "{}".to_string(),
    }
}

fn patch() -> PatchUserSettingsPayload {
    PatchUserSettingsPayload {
        user_id: 1,
        theme: None,
        last_collection_id: None,
        sidebar_collapsed: None,
        sort_field: None,
        sort_direction: None,
        ollama_base_url: None,
        ollama_model: None,
        extra: None,
    }
}

#[test]
fn extra_must_be_a_json_object() {
    assert_eq!(check_extra("{\"a\": 1}"), Ok(()));
    assert_eq!(check_extra("[1, 2]"), Err("extra field must be a JSON object".to_string()));
    let e = check_extra("{oops").err().unwrap();
    assert!(e.starts_with("extra field must be valid JSON: "));
    assert!(e.len() > "extra field must be valid JSON: ".len());
    let big = format!("{{\"k\": \"{}\"}}", "x".repeat(65536));
    assert_eq!(check_extra(&big), Err("extra field exceeds maximum size of 65536 bytes".to_string()));
    assert_eq!(extra_json_verdict(&Err("eof".to_string())), Err("extra field must be valid JSON: eof".to_string()));
    assert_eq!(extra_json_verdict(&Ok(false)), Err("extra field must be a JSON object".to_string()));
}

#[test]
fn stored_extra_accepts_empty_and_braces() {
    assert!(validate_stored_extra("").is_ok());
    assert!(validate_stored_extra("{}").is_ok());
    assert!(validate_stored_extra("{\"x\":true}").is_ok());
    match validate_stored_extra("7") {
        Err(ServiceError::Core(CoreError::Validation { field, message })) => {
            assert_eq!(field, "extra");
            assert_eq!(message, "extra field must be a JSON object");
        }
        _ => panic!("expected validation error"),
    }
}

#[test]
fn patch_applies_present_fields_only() {
    let mut p = patch();
    p.theme = Some("dark".to_string());
    p.last_collection_id = Some(None);
    p.ollama_model = Some(None);
    p.extra = Some("{\"pinned\": [1]}".to_string());
    let n = p.apply(current()).ok().unwrap();
    assert_eq!(n.theme, "dark");
    assert_eq!(n.last_collection_id, None);
    assert_eq!(n.ollama_model, None);
    assert_eq!(n.extra, "{\"pinned\": [1]}");
    assert_eq!(n.sort_field, "updated_at");
    assert_eq!(n.ollama_base_url, "http://localhost:11434");
    assert!(!n.sidebar_collapsed);
    let n = patch().apply(current()).ok().unwrap();
    assert_eq!((n.theme.as_str(), n.last_collection_id), ("light", Some(4)));
}

#[test]
fn patch_with_bad_extra_is_refused() {
    let mut p = patch();
    p.theme = Some("dark".to_string());
    p.extra = Some("\"text\"".to_string());
    let e = p.apply(current()).err().unwrap();
    assert_eq!((e.status, e.body.code.as_str(), e.body.message.as_str()), (400, "VALIDATION_ERROR", "extra field must be a JSON object"));
    let mut q = patch();
    q.user_id = 2;
    assert_eq!(q.authorize(1).err().unwrap().status, 403);
}

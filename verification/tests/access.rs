use neuronprompter::access::{authorize_shutdown, check_id_match, check_ownership, check_user_creation_allowed, verify_user_id_param, AuthContext, AuthSession, AuthUser, ShutdownPayload};

#[test]
fn ownership_mismatch_is_not_found() {
    assert!(check_ownership(1, 1).is_ok());
    let e = check_ownership(1, 2).err().unwrap();
    assert_eq!((e.status, e.body.code.as_str(), e.body.message.as_str()), (404, "NOT_FOUND", "resource not found"));
}

#[test]
fn other_user_param_is_forbidden() {
    assert!(verify_user_id_param(3, 3).is_ok());
    let e = verify_user_id_param(3, 4).err().unwrap();
    assert_eq!((e.status, e.body.code.as_str(), e.body.message.as_str()), (403, "FORBIDDEN", "cannot access resources of another user"));
}

#[test]
fn path_and_body_ids_must_match() {
    assert!(check_id_match("prompt", 5, 5).is_ok());
    let e = check_id_match("prompt", 5, -6).err().unwrap();
    assert_eq!((e.status, e.body.code.as_str()), (400, "ID_MISMATCH"));
    assert_eq!(e.body.message, "path prompt_id (5) does not match payload prompt_id (-6)");
}

#[test]
fn extractors_require_session_and_user() {
    let e = AuthUser::from_context(None).err().unwrap();
    assert_eq!((e.status, e.body.code.as_str(), e.body.message.as_str()), (401, "AUTH_REQUIRED", "a valid session is required"));
    let ctx = AuthContext { user_id: None, session_token: "tok".to_string() };
    let e = AuthUser::from_context(Some(&ctx)).err().unwrap();
    assert_eq!((e.status, e.body.code.as_str(), e.body.message.as_str()), (401, "USER_REQUIRED", "a user must be selected to perform this action"));
    let s = AuthSession::from_context(Some(&ctx)).ok().unwrap();
    assert_eq!((s.user_id, s.session_token.as_str()), (None, "tok"));
    assert!(AuthSession::from_context(None).is_err());
    let ctx = AuthContext { user_id: Some(8), session_token: "tok".to_string() };
    let u = AuthUser::from_context(Some(&ctx)).ok().unwrap();
    assert_eq!((u.user_id, u.session_token.as_str()), (8, "tok"));
}

#[test]
fn first_user_bootstrap() {
    assert!(check_user_creation_allowed(false, false).is_ok());
    assert!(check_user_creation_allowed(true, true).is_ok());
    let e = check_user_creation_allowed(false, true).err().unwrap();
    assert_eq!((e.status, e.body.code.as_str()), (401, "AUTH_REQUIRED"));
}

#[test]
fn shutdown_requires_the_server_token() {
    let ok = authorize_shutdown(&ShutdownPayload { token: "s3cret".to_string() }, "s3cret").ok().unwrap();
    assert_eq!(ok.message, "shutdown initiated");
    let e = authorize_shutdown(&ShutdownPayload { token: "s3cre".to_string() }, "s3cret").err().unwrap();
    assert_eq!((e.status, e.body.code.as_str(), e.body.message.as_str()), (403, "FORBIDDEN", "invalid shutdown token"));
    assert!(authorize_shutdown(&ShutdownPayload { token: "s3creT".to_string() }, "s3cret").is_err());
}

//! Request authentication and authorization decisions.
//!
//! A request carries at most one session context, resolved from its cookie.
//! Handlers then ask for a session with a selected user (`AuthUser`) or any
//! session (`AuthSession`), and compare the session user with the owner of
//! the resource or the user named in the request. Ownership mismatches
//! answer 404 so that the existence of other users' resources is not
//! revealed; a mismatching user id named by the client answers 403.
use vstd::prelude::*;
use vstd::string::StringSliceAdditionalSpecFns;
use vstd::utf8::encode_utf8_decode_utf8;
use crate::errors::{ApiError, api_view};
use crate::session::{SessionStore, lookup_spec, after_lookup_spec};
use crate::text::{append_int, int_decimal};
use subtle::ConstantTimeEq;

verus! {

/// Session context of a request: the selected user, if any, and the token.
pub struct AuthContext {
    /// The user ID from the session, if a user has been selected.
    pub user_id: Option<i64>,
    /// The hex-encoded session token.
    pub session_token: String,
}

/// A session with a selected user.
pub struct AuthUser {
    /// The authenticated user ID.
    pub user_id: i64,
    /// The hex-encoded session token.
    pub session_token: String,
}

/// A session, with or without a selected user.
pub struct AuthSession {
    /// The user ID from the session, or None if no user is selected yet.
    pub user_id: Option<i64>,
    /// The hex-encoded session token.
    pub session_token: String,
}

/// The answer to a request without a session.
pub open spec fn no_session_error() -> (u16, Seq<char>, Seq<char>) {
    (401, "AUTH_REQUIRED"@, "a valid session is required"@)
}

/// The answer to a request whose session has no selected user.
pub open spec fn no_user_error() -> (u16, Seq<char>, Seq<char>) {
    (401, "USER_REQUIRED"@, "a user must be selected to perform this action"@)
}

impl AuthUser {
    /// Requires a session with a selected user.
    pub fn from_context(ctx: Option<&AuthContext>) -> (r: Result<AuthUser, ApiError>)
        ensures
            match ctx {
                None => r is Err && api_view(r->Err_0) == no_session_error(),
                Some(c) => match c.user_id {
                    None => r is Err && api_view(r->Err_0) == no_user_error(),
                    Some(u) => r is Ok && r->Ok_0.user_id == u && r->Ok_0.session_token@
                        == c.session_token@,
                },
            },
    {
        match ctx {
            None => Err(
                ApiError::new(401, "AUTH_REQUIRED", String::from_str("a valid session is required")),
            ),
            Some(c) => match c.user_id {
                None => Err(
                    ApiError::new(
                        401,
                        "USER_REQUIRED",
                        String::from_str("a user must be selected to perform this action"),
                    ),
                ),
                Some(u) => Ok(
                    AuthUser { user_id: u, session_token: String::from_str(c.session_token.as_str()) },
                ),
            },
        }
    }
}

impl AuthSession {
    /// Requires a session; a selected user is optional.
    pub fn from_context(ctx: Option<&AuthContext>) -> (r: Result<AuthSession, ApiError>)
        ensures
            match ctx {
                None => r is Err && api_view(r->Err_0) == no_session_error(),
                Some(c) => r is Ok && r->Ok_0.user_id == c.user_id && r->Ok_0.session_token@
                    == c.session_token@,
            },
    {
        match ctx {
            None => Err(
                ApiError::new(401, "AUTH_REQUIRED", String::from_str("a valid session is required")),
            ),
            Some(c) => Ok(
                AuthSession {
                    user_id: c.user_id,
                    session_token: String::from_str(c.session_token.as_str()),
                },
            ),
        }
    }
}

/// What the session layer decided for one request.
pub struct ResolvedSession {
    /// The context handed to the handlers, if the cookie named a live session.
    pub context: Option<AuthContext>,
    /// Whether the response must clear a stale session cookie.
    pub clear_cookie: bool,
}

/// Resolves the session of a request from the token in its cookie, if it
/// has one. A live session yields a context; a token that names no live
/// session yields none and asks for the cookie to be cleared; no token
/// leaves the request without a context.
pub fn resolve_session(store: &mut SessionStore, token: Option<&str>, now_ms: u64, now_secs: u64) -> (r:
    ResolvedSession)
    requires
        old(store).wf(),
    ensures
        final(store).wf(),
        final(store).capacity() == old(store).capacity(),
        final(store).ttl() == old(store).ttl(),
        final(store).localhost() == old(store).localhost(),
        match token {
            None => r.context is None && !r.clear_cookie && final(store).view() == old(store).view(),
            Some(t) => final(store).view() == after_lookup_spec(
                old(store).view(),
                t.spec_bytes(),
                now_ms,
                now_secs,
                old(store).ttl(),
            ) && match lookup_spec(old(store).view(), t.spec_bytes(), now_ms, old(store).ttl()) {
                Some((u, _, _)) => !r.clear_cookie && r.context is Some && r.context->Some_0.user_id
                    == u && r.context->Some_0.session_token@ == t@,
                None => r.context is None && r.clear_cookie,
            },
        },
{
    match token {
        None => ResolvedSession { context: None, clear_cookie: false },
        Some(t) => match store.get_session(t, now_ms, now_secs) {
            Some(info) => ResolvedSession {
                context: Some(AuthContext { user_id: info.user_id, session_token: String::from_str(t) }),
                clear_cookie: false,
            },
            None => ResolvedSession { context: None, clear_cookie: true },
        },
    }
}

/// Ownership check: the session user must own the resource. A mismatch
/// answers 404 rather than 403 so that the resource's existence is not
/// revealed.
pub fn check_ownership(session_user_id: i64, resource_user_id: i64) -> (r: Result<(), ApiError>)
    ensures
        r is Ok <==> session_user_id == resource_user_id,
        r is Err ==> api_view(r->Err_0) == (404u16, "NOT_FOUND"@, "resource not found"@),
{
    if session_user_id == resource_user_id {
        Ok(())
    } else {
        Err(ApiError::new(404, "NOT_FOUND", String::from_str("resource not found")))
    }
}

/// A user id named in the request must be the session user.
pub fn verify_user_id_param(session_user_id: i64, user_id: i64) -> (r: Result<(), ApiError>)
    ensures
        r is Ok <==> session_user_id == user_id,
        r is Err ==> api_view(r->Err_0) == (
            403u16,
            "FORBIDDEN"@,
            "cannot access resources of another user"@,
        ),
{
    if session_user_id != user_id {
        return Err(
            ApiError::new(403, "FORBIDDEN", String::from_str("cannot access resources of another user")),
        );
    }
    Ok(())
}

/// The message for an id in the path that differs from the one in the body.
pub open spec fn id_mismatch_message(entity: Seq<char>, path_id: i64, payload_id: i64) -> Seq<char> {
    "path "@ + entity + "_id ("@ + int_decimal(path_id as int) + ") does not match payload "@ + entity
        + "_id ("@ + int_decimal(payload_id as int) + ")"@
}

/// The id in the request path must equal the id in the request body.
pub fn check_id_match(entity: &str, path_id: i64, payload_id: i64) -> (r: Result<(), ApiError>)
    ensures
        r is Ok <==> path_id == payload_id,
        r is Err ==> api_view(r->Err_0) == (
            400u16,
            "ID_MISMATCH"@,
            id_mismatch_message(entity@, path_id, payload_id),
        ),
{
    if path_id == payload_id {
        return Ok(());
    }
    let mut m = String::from_str("path ");
    m.append(entity);
    m.append("_id (");
    append_int(&mut m, path_id);
    m.append(") does not match payload ");
    m.append(entity);
    m.append("_id (");
    append_int(&mut m, payload_id);
    m.append(")");
    Err(ApiError::new(400, "ID_MISMATCH", m))
}

/// Creating a user needs a session, except while no user exists yet (the
/// first-run bootstrap).
pub fn check_user_creation_allowed(has_session: bool, users_exist: bool) -> (r: Result<(), ApiError>)
    ensures
        r is Ok <==> (has_session || !users_exist),
        r is Err ==> api_view(r->Err_0) == no_session_error(),
{
    if !has_session && users_exist {
        return Err(
            ApiError::new(401, "AUTH_REQUIRED", String::from_str("a valid session is required")),
        );
    }
    Ok(())
}

/// Request body of the shutdown endpoint.
pub struct ShutdownPayload {
    pub token: String,
}

/// Response body of an accepted shutdown.
pub struct ShutdownResponse {
    pub message: String,
}

/// `ConstantTimeEq::ct_eq` on byte slices from subtle: 1 exactly when the
/// slices have the same length and the same bytes (the lengths are compared
/// first, the contents in time independent of their values).
#[verifier::external_body]
fn bytes_equal_ct(a: &[u8], b: &[u8]) -> (r: bool)
    ensures
        r == (a@ == b@),
{
    bool::from(a.ct_eq(b))
}

/// Accepts a shutdown request exactly when its token is the server's
/// session token, compared in constant time.
pub fn authorize_shutdown(payload: &ShutdownPayload, server_token: &str) -> (r: Result<
    ShutdownResponse,
    ApiError,
>)
    ensures
        r is Ok <==> payload.token@ == server_token@,
        r is Ok ==> r->Ok_0.message@ == "shutdown initiated"@,
        r is Err ==> api_view(r->Err_0) == (403u16, "FORBIDDEN"@, "invalid shutdown token"@),
{
    let same = bytes_equal_ct(payload.token.as_str().as_bytes(), server_token.as_bytes());
    proof {
        encode_utf8_decode_utf8(payload.token@);
        encode_utf8_decode_utf8(server_token@);
    }
    if same {
        Ok(ShutdownResponse { message: String::from_str("shutdown initiated") })
    } else {
        Err(ApiError::new(403, "FORBIDDEN", String::from_str("invalid shutdown token")))
    }
}

} // verus!

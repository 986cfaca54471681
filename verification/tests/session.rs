use neuronprompter::access::{resolve_session, AuthSession};
use neuronprompter::errors::ApiError;
use neuronprompter::requests::{session_status, switch_session, SessionMeResponse, SessionMeUser, SessionStatus, SwitchSessionPayload};
use neuronprompter::session::{clear_session_cookie_value, extract_cookie_token, remaining_ttl_secs, session_cookie_value, ClientIp, SessionStore};

const TTL: u64 = 86_400_000;
const LOCAL: ClientIp = ClientIp::V4([127, 0, 0, 1]);

#[test]
fn session_round_trip_and_expiry() {
    let mut store = SessionStore::new(10, TTL, true);
    assert!(store.is_empty());
    let token = store.create_session(LOCAL, Some(5), 1_000, 100);
    assert_eq!(token.len(), 64);
    assert_eq!(store.len(), 1);
    let info = store.get_session(&token, 2_000, 101).unwrap();
    assert_eq!(info.user_id, Some(5));
    assert_eq!(info.created_at_ms, 1_000);
    assert!(store.get_session(&token, 1_000 + TTL + 1, 102).is_none());
    assert_eq!(store.len(), 0);
}

#[test]
fn session_with_known_token() {
    let mut store = SessionStore::new(10, TTL, false);
    let hex = store.create_session_with_token([0xab; 32], None, LOCAL, 0, 0);
    assert_eq!(hex, "ab".repeat(32));
    let info = store.get_session(&hex, 10, 1).unwrap();
    assert_eq!(info.user_id, None);
    assert!(store.get_session(&"AB".repeat(32), 10, 1).is_some());
    assert!(store.get_session("not-hex", 10, 1).is_none());
    assert!(store.set_session_user(&hex, 9, 2));
    assert_eq!(store.get_session(&hex, 20, 3).unwrap().user_id, Some(9));
    assert!(!store.set_session_user(&"cd".repeat(32), 9, 2));
    store.remove_session(&hex);
    assert!(store.is_empty());
}

#[test]
fn session_capacity_evicts_least_recently_active() {
    let mut store = SessionStore::new(2, TTL, true);
    let a = store.create_session_with_token([1; 32], Some(1), LOCAL, 0, 10);
    let b = store.create_session_with_token([2; 32], Some(2), LOCAL, 0, 20);
    assert!(store.get_session(&a, 1, 30).is_some());
    let c = store.create_session_with_token([3; 32], Some(3), LOCAL, 0, 40);
    assert_eq!(store.len(), 2);
    assert!(store.get_session(&b, 2, 50).is_none());
    assert!(store.get_session(&a, 2, 50).is_some());
    assert!(store.get_session(&c, 2, 50).is_some());
}

#[test]
fn sessions_removed_per_user_and_on_expiry() {
    let mut store = SessionStore::new(10, 1_000, true);
    let a = store.create_session_with_token([1; 32], Some(1), LOCAL, 0, 0);
    let b = store.create_session_with_token([2; 32], Some(2), LOCAL, 500, 0);
    let c = store.create_session_with_token([3; 32], Some(1), LOCAL, 900, 0);
    store.remove_sessions_for_user(1);
    assert_eq!(store.len(), 1);
    assert!(store.get_session(&b, 600, 1).is_some());
    assert!(store.get_session(&a, 600, 1).is_none());
    assert!(store.get_session(&c, 600, 1).is_none());
    store.cleanup_expired(1_501);
    assert!(store.is_empty());
    assert_eq!(store.session_ttl(), 1_000);
    assert!(store.is_localhost());
}

#[test]
fn cookie_token_extraction() {
    assert_eq!(extract_cookie_token(None), None);
    assert_eq!(extract_cookie_token(Some("a=1; np_session= abc ; np_session=def")), Some("abc".to_string()));
    assert_eq!(extract_cookie_token(Some("np_session=; np_session=x")), Some("x".to_string()));
    assert_eq!(extract_cookie_token(Some("other=1")), None);
    assert_eq!(session_cookie_value("t", true), "np_session=t; HttpOnly; SameSite=Strict; Path=/; Max-Age=86400");
    assert_eq!(session_cookie_value("t", false), "np_session=t; HttpOnly; SameSite=Strict; Path=/; Max-Age=86400; Secure");
    assert_eq!(clear_session_cookie_value(), "np_session=; HttpOnly; SameSite=Strict; Path=/; Max-Age=0");
}

#[test]
fn remaining_lifetime() {
    assert_eq!(remaining_ttl_secs(1_000, 1_000, 86_400_000), 86_400);
    assert_eq!(remaining_ttl_secs(1_000, 2_500, 10_000), 8);
    assert_eq!(remaining_ttl_secs(0, 20_000, 10_000), 0);
    assert_eq!(remaining_ttl_secs(5_000, 1_000, 10_000), 10);
}

#[test]
fn request_session_resolution() {
    let mut store = SessionStore::new(10, TTL, true);
    let t = store.create_session(LOCAL, None, 0, 0);
    let r = resolve_session(&mut store, None, 1, 1);
    assert!(r.context.is_none() && !r.clear_cookie);
    let r = resolve_session(&mut store, Some(&t), 1, 1);
    let ctx = r.context.unwrap();
    assert_eq!(ctx.user_id, None);
    assert_eq!(ctx.session_token, t);
    assert!(!r.clear_cookie);
    let r = resolve_session(&mut store, Some(&"00".repeat(32)), 1, 1);
    assert!(r.context.is_none() && r.clear_cookie);
}

#[test]
fn session_switch_and_status() {
    let mut store = SessionStore::new(10, 10_000, true);
    let t = store.create_session(LOCAL, None, 0, 0);
    let auth = AuthSession { user_id: None, session_token: t.clone() };
    assert!(switch_session(&mut store, &auth, &SwitchSessionPayload { user_id: 4 }, 5).is_ok());
    let st = session_status(&mut store, Some(&t), 2_500, 6).unwrap();
    assert_eq!(st.user_id, Some(4));
    assert_eq!(st.remaining_ttl_secs, 7);
    let gone = AuthSession { user_id: None, session_token: "ff".repeat(32) };
    let e = switch_session(&mut store, &gone, &SwitchSessionPayload { user_id: 4 }, 5).err().unwrap();
    assert_eq!((e.status, e.body.code.as_str(), e.body.message.as_str()), (401, "AUTH_REQUIRED", "session not found"));

    let st2 = SessionStatus { user_id: st.user_id, remaining_ttl_secs: st.remaining_ttl_secs };
    let me = SessionMeResponse::assemble(Some(st), Ok(Some(SessionMeUser { id: 4, username: "a".to_string(), display_name: "A".to_string() }))).ok().unwrap();
    assert_eq!(me.remaining_ttl_secs, Some(7));
    assert_eq!(me.user.unwrap().id, 4);
    let failed = SessionMeResponse::assemble(Some(st2), Err(ApiError::internal("lookup failed".to_string()))).err().unwrap();
    assert_eq!((failed.status, failed.body.message.as_str()), (500, "lookup failed"));
    let none = SessionMeResponse::assemble(None, Ok(None)).ok().unwrap();
    assert!(none.user.is_none() && none.remaining_ttl_secs.is_none());
    assert!(session_status(&mut store, None, 0, 0).is_none());
}

#[test]
fn activity_does_not_extend_session_lifetime() {
    let mut store = SessionStore::new(10, 1_000, true);
    let t = store.create_session(LOCAL, Some(1), 0, 0);
    assert!(store.get_session(&t, 900, 50).is_some());
    assert!(store.get_session(&t, 1_000, 60).is_some());
    assert!(store.get_session(&t, 1_001, 70).is_none());
    assert!(store.is_empty());
}

#[test]
fn set_cookie_token_reads_back() {
    let mut store = SessionStore::new(4, TTL, true);
    let t = store.create_session(LOCAL, None, 0, 0);
    let header = format!("np_session={t}");
    assert_eq!(extract_cookie_token(Some(&header)), Some(t));
}

#[test]
fn session_keeps_creating_client_address() {
    let mut store = SessionStore::new(4, TTL, false);
    let ip = ClientIp::V6([0, 0, 0, 0, 0, 0, 0, 0, 0, 0, 0, 0, 0, 0, 0, 1]);
    let t = store.create_session(ip, Some(3), 0, 0);
    let info = store.get_session(&t, 1, 1).unwrap();
    assert!(matches!(info.ip, ClientIp::V6(b) if b[15] == 1));
    assert_eq!(info.user_id, Some(3));
}

#[test]
fn below_capacity_nothing_is_evicted() {
    let mut store = SessionStore::new(3, TTL, true);
    let a = store.create_session_with_token([1; 32], Some(1), LOCAL, 0, 10);
    let b = store.create_session_with_token([2; 32], Some(2), LOCAL, 0, 20);
    let _c = store.create_session_with_token([3; 32], Some(3), LOCAL, 0, 30);
    assert_eq!(store.len(), 3);
    assert!(store.get_session(&a, 1, 40).is_some());
    assert!(store.get_session(&b, 1, 41).is_some());
}

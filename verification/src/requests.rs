//! Request bodies of the HTTP API and the decisions taken on them before
//! any storage is touched: which value a toggle sets, which version a
//! restore names, whether a bulk request or a setting may proceed, and what
//! the session, clipboard and health endpoints answer.
use vstd::prelude::*;
use vstd::string::StringExecFns;
use crate::access::{AuthSession, verify_user_id_param};
use crate::associations::{BulkUpdateInput, MAX_BULK_IDS};
use crate::clipboard::{ClipboardEntry, ClipboardState, pushed};
use crate::errors::{ApiError, ServiceError, api_view};
use crate::files::{FileKind, NewScriptDraft, check_import_file, import_title, is_path_error,
    file_problem, detect_language_spec, script_from_file, same_text, is_blank_spec, is_blank_content_error};
use crate::session::{SessionStore, lookup_spec, after_lookup_spec};
use crate::token::hex_decoded;
use vstd::string::StringSliceAdditionalSpecFns;
use vstd::utf8::encode_utf8;
use crate::text::{append_int, int_decimal, parse_i64, parse_i64_spec};

verus! {

// ---------------------------------------------------------------------------
// Toggles and bulk updates
// ---------------------------------------------------------------------------

/// Body of the favorite and archive toggles. Without a value the flag is
/// inverted.
pub struct TogglePayload {
    pub value: Option<bool>,
}

/// The flag a toggle request sets: the value it names, or the inverse of
/// the current flag (also when the request has no body).
pub fn toggle_value(body: &Option<TogglePayload>, current: bool) -> (v: bool)
    ensures
        v == (match body {
            Some(TogglePayload { value: Some(x) }) => *x,
            _ => !current,
        }),
{
    match body {
        Some(p) => match p.value {
            Some(x) => x,
            None => !current,
        },
        None => !current,
    }
}

/// Body of the bulk-update endpoints of prompts, scripts and chains.
pub struct BulkUpdatePayload {
    pub ids: Vec<i64>,
    pub set_favorite: Option<bool>,
    pub set_archived: Option<bool>,
    pub add_tag_ids: Vec<i64>,
    pub remove_tag_ids: Vec<i64>,
    pub add_category_ids: Vec<i64>,
    pub remove_category_ids: Vec<i64>,
    pub add_collection_ids: Vec<i64>,
    pub remove_collection_ids: Vec<i64>,
}

impl BulkUpdatePayload {
    /// Checks the id list (non-empty, at most `MAX_BULK_IDS` ids) and hands
    /// the request on unchanged.
    pub fn into_input(self) -> (r: Result<BulkUpdateInput, ApiError>)
        ensures
            r is Ok <==> 0 < self.ids@.len() <= MAX_BULK_IDS,
            r matches Ok(i) ==> i.ids@ == self.ids@ && i.set_favorite == self.set_favorite
                && i.set_archived == self.set_archived && i.add_tag_ids@ == self.add_tag_ids@
                && i.remove_tag_ids@ == self.remove_tag_ids@ && i.add_category_ids@
                == self.add_category_ids@ && i.remove_category_ids@ == self.remove_category_ids@
                && i.add_collection_ids@ == self.add_collection_ids@ && i.remove_collection_ids@
                == self.remove_collection_ids@,
            r matches Err(e) ==> api_view(e) == (400u16, "VALIDATION_ERROR"@, if self.ids@.len()
                == 0 {
                "ids must not be empty"@
            } else {
                "too many IDs, maximum is 1000"@
            }),
    {
        if self.ids.len() == 0 {
            return Err(
                ApiError::new(400, "VALIDATION_ERROR", String::from_str("ids must not be empty")),
            );
        }
        if self.ids.len() > MAX_BULK_IDS {
            return Err(
                ApiError::new(
                    400,
                    "VALIDATION_ERROR",
                    String::from_str("too many IDs, maximum is 1000"),
                ),
            );
        }
        Ok(
            BulkUpdateInput {
                ids: self.ids,
                set_favorite: self.set_favorite,
                set_archived: self.set_archived,
                add_tag_ids: self.add_tag_ids,
                remove_tag_ids: self.remove_tag_ids,
                add_category_ids: self.add_category_ids,
                remove_category_ids: self.remove_category_ids,
                add_collection_ids: self.add_collection_ids,
                remove_collection_ids: self.remove_collection_ids,
            },
        )
    }
}

// ---------------------------------------------------------------------------
// Versions
// ---------------------------------------------------------------------------

/// Body of a restore request: exactly one of the two fields names the
/// version to restore.
pub struct RestorePayload {
    pub version_number: Option<i64>,
    pub version_id: Option<i64>,
}

/// How a restore request names its version.
pub enum VersionChoice {
    /// By its number within the parent's history.
    Number(i64),
    /// By its row id; it must then belong to the parent.
    Id(i64),
}

impl RestorePayload {
    /// The version the request names; naming none or both is refused.
    pub fn choice(&self) -> (r: Result<VersionChoice, ApiError>)
        ensures
            match (self.version_number, self.version_id) {
                (Some(n), None) => r matches Ok(VersionChoice::Number(m)) && m == n,
                (None, Some(i)) => r matches Ok(VersionChoice::Id(j)) && j == i,
                _ => r matches Err(e) && api_view(e) == (
                    400u16,
                    "VALIDATION_ERROR"@,
                    "Provide exactly one of version_number or version_id"@,
                ),
            },
    {
        match (self.version_number, self.version_id) {
            (Some(n), None) => Ok(VersionChoice::Number(n)),
            (None, Some(i)) => Ok(VersionChoice::Id(i)),
            _ => Err(
                ApiError::new(
                    400,
                    "VALIDATION_ERROR",
                    String::from_str("Provide exactly one of version_number or version_id"),
                ),
            ),
        }
    }
}

/// A version named by id must belong to the prompt or script being
/// restored.
pub fn check_version_parent(parent_kind: &str, version_id: i64, version_parent: i64, parent_id: i64) -> (r:
    Result<(), ApiError>)
    ensures
        r is Ok <==> version_parent == parent_id,
        r matches Err(e) ==> api_view(e) == (
            400u16,
            "VALIDATION_ERROR"@,
            "Version "@ + int_decimal(version_id as int) + " does not belong to "@ + parent_kind@
                + " "@ + int_decimal(parent_id as int),
        ),
{
    if version_parent == parent_id {
        return Ok(());
    }
    let mut m = String::from_str("Version ");
    append_int(&mut m, version_id);
    m.append(" does not belong to ");
    m.append(parent_kind);
    m.append(" ");
    append_int(&mut m, parent_id);
    Err(ApiError::new(400, "VALIDATION_ERROR", m))
}

/// Query of a version comparison: the ids of the two versions.
pub struct CompareQuery {
    pub version_a: i64,
    pub version_b: i64,
}

/// Two compared versions must belong to the same prompt or script.
pub fn check_same_parent(parent_kind: &str, parent_a: i64, parent_b: i64) -> (r: Result<(), ApiError>)
    ensures
        r is Ok <==> parent_a == parent_b,
        r matches Err(e) ==> api_view(e) == (
            400u16,
            "VALIDATION_ERROR"@,
            "Both versions must belong to the same "@ + parent_kind@,
        ),
{
    if parent_a == parent_b {
        return Ok(());
    }
    let mut m = String::from_str("Both versions must belong to the same ");
    m.append(parent_kind);
    Err(ApiError::new(400, "VALIDATION_ERROR", m))
}

// ---------------------------------------------------------------------------
// Application settings
// ---------------------------------------------------------------------------

/// Body of a write to an application setting.
pub struct SetAppSettingPayload {
    pub value: String,
}

/// The one application setting that clients may write.
pub open spec fn writable_key(key: Seq<char>) -> bool {
    key == "last_user_id"@
}

/// Checks a write to an application setting: only `last_user_id` may be
/// written, and its value must be an integer, which is returned so that the
/// caller can check that such a user exists.
pub fn check_app_setting(key: &str, payload: &SetAppSettingPayload) -> (r: Result<i64, ApiError>)
    ensures
        !writable_key(key@) ==> (r matches Err(e) && api_view(e) == (
            403u16,
            "FORBIDDEN"@,
            "app setting key '"@ + key@ + "' is not writable"@,
        )),
        writable_key(key@) ==> match parse_i64_spec(payload.value@) {
            Some(uid) => (r matches Ok(u) && u == uid),
            None => (r matches Err(e) && api_view(e) == (
                400u16,
                "VALIDATION_ERROR"@,
                "last_user_id must be a valid integer"@,
            )),
        },
{
    if !same_text(key, "last_user_id") {
        let mut m = String::from_str("app setting key '");
        m.append(key);
        m.append("' is not writable");
        return Err(ApiError::new(403, "FORBIDDEN", m));
    }
    match parse_i64(payload.value.as_str()) {
        Some(uid) => Ok(uid),
        None => Err(
            ApiError::new(
                400,
                "VALIDATION_ERROR",
                String::from_str("last_user_id must be a valid integer"),
            ),
        ),
    }
}

/// The answer when the user named by `last_user_id` does not exist.
pub fn unknown_user_error(uid: i64) -> (e: ApiError)
    ensures
        api_view(e) == (
            400u16,
            "VALIDATION_ERROR"@,
            "user with id "@ + int_decimal(uid as int) + " does not exist"@,
        ),
{
    let mut m = String::from_str("user with id ");
    append_int(&mut m, uid);
    m.append(" does not exist");
    ApiError::new(400, "VALIDATION_ERROR", m)
}

// ---------------------------------------------------------------------------
// Requests that name their user
// ---------------------------------------------------------------------------

/// Body of tag creation.
pub struct CreateTagPayload {
    pub user_id: i64,
    pub name: String,
}

/// Body of category creation.
pub struct CreateCategoryPayload {
    pub user_id: i64,
    pub name: String,
}

/// Body of collection creation.
pub struct CreateCollectionPayload {
    pub user_id: i64,
    pub name: String,
}

/// Body of a synchronization of the user's synced scripts.
pub struct SyncPayload {
    pub user_id: i64,
}

/// Body of a JSON export: all of the user's prompts when no ids are given.
pub struct ExportJsonPayload {
    pub user_id: i64,
    pub prompt_ids: Vec<i64>,
    pub path: String,
}

/// Body of a JSON import.
pub struct ImportJsonPayload {
    pub user_id: i64,
    pub path: String,
}

/// Body of a Markdown export: all of the user's prompts when no ids are
/// given.
pub struct ExportMarkdownPayload {
    pub user_id: i64,
    pub prompt_ids: Vec<i64>,
    pub dir_path: String,
}

/// Body of a Markdown import.
pub struct ImportMarkdownPayload {
    pub user_id: i64,
    pub dir_path: String,
}

/// Body of a copy of all of one user's content to another user.
pub struct BulkCopyRequest {
    pub source_user_id: i64,
    pub target_user_id: i64,
}

/// The answer when a request names another user than the session's.
pub open spec fn other_user_error() -> (u16, Seq<char>, Seq<char>) {
    (403, "FORBIDDEN"@, "cannot access resources of another user"@)
}

impl CreateTagPayload {
    /// The tag may only be created for the session user.
    pub fn authorize(&self, session_user_id: i64) -> (r: Result<(), ApiError>)
        ensures
            r is Ok <==> self.user_id == session_user_id,
            r matches Err(e) ==> api_view(e) == other_user_error(),
    {
        verify_user_id_param(session_user_id, self.user_id)
    }
}

impl CreateCategoryPayload {
    /// The category may only be created for the session user.
    pub fn authorize(&self, session_user_id: i64) -> (r: Result<(), ApiError>)
        ensures
            r is Ok <==> self.user_id == session_user_id,
            r matches Err(e) ==> api_view(e) == other_user_error(),
    {
        verify_user_id_param(session_user_id, self.user_id)
    }
}

impl CreateCollectionPayload {
    /// The collection may only be created for the session user.
    pub fn authorize(&self, session_user_id: i64) -> (r: Result<(), ApiError>)
        ensures
            r is Ok <==> self.user_id == session_user_id,
            r matches Err(e) ==> api_view(e) == other_user_error(),
    {
        verify_user_id_param(session_user_id, self.user_id)
    }
}

impl SyncPayload {
    /// Only the session user's scripts may be synchronized.
    pub fn authorize(&self, session_user_id: i64) -> (r: Result<(), ApiError>)
        ensures
            r is Ok <==> self.user_id == session_user_id,
            r matches Err(e) ==> api_view(e) == other_user_error(),
    {
        verify_user_id_param(session_user_id, self.user_id)
    }
}

impl ImportJsonPayload {
    /// Imports only go to the session user.
    pub fn authorize(&self, session_user_id: i64) -> (r: Result<(), ApiError>)
        ensures
            r is Ok <==> self.user_id == session_user_id,
            r matches Err(e) ==> api_view(e) == other_user_error(),
    {
        verify_user_id_param(session_user_id, self.user_id)
    }
}

impl ImportMarkdownPayload {
    /// Imports only go to the session user.
    pub fn authorize(&self, session_user_id: i64) -> (r: Result<(), ApiError>)
        ensures
            r is Ok <==> self.user_id == session_user_id,
            r matches Err(e) ==> api_view(e) == other_user_error(),
    {
        verify_user_id_param(session_user_id, self.user_id)
    }
}

impl BulkCopyRequest {
    /// Only the session user may copy their own content away.
    pub fn authorize(&self, session_user_id: i64) -> (r: Result<(), ApiError>)
        ensures
            r is Ok <==> self.source_user_id == session_user_id,
            r matches Err(e) ==> api_view(e) == other_user_error(),
    {
        verify_user_id_param(session_user_id, self.source_user_id)
    }
}

/// The prompts an export covers: the requested ids, or all of the user's
/// prompts when none were requested.
pub fn export_selection(requested: &Vec<i64>, all_ids: Vec<i64>) -> (r: Vec<i64>)
    ensures
        r@ == (if requested@.len() == 0 {
            all_ids@
        } else {
            requested@
        }),
{
    if requested.len() == 0 {
        all_ids
    } else {
        requested.clone()
    }
}

impl ExportJsonPayload {
    /// Exports only cover the session user's prompts.
    pub fn authorize(&self, session_user_id: i64) -> (r: Result<(), ApiError>)
        ensures
            r is Ok <==> self.user_id == session_user_id,
            r matches Err(e) ==> api_view(e) == other_user_error(),
    {
        verify_user_id_param(session_user_id, self.user_id)
    }

    /// Whether the export covers all of the user's prompts.
    pub fn exports_all(&self) -> (b: bool)
        ensures
            b == (self.prompt_ids@.len() == 0),
    {
        self.prompt_ids.len() == 0
    }
}

impl ExportMarkdownPayload {
    /// Exports only cover the session user's prompts.
    pub fn authorize(&self, session_user_id: i64) -> (r: Result<(), ApiError>)
        ensures
            r is Ok <==> self.user_id == session_user_id,
            r matches Err(e) ==> api_view(e) == other_user_error(),
    {
        verify_user_id_param(session_user_id, self.user_id)
    }

    /// Whether the export covers all of the user's prompts.
    pub fn exports_all(&self) -> (b: bool)
        ensures
            b == (self.prompt_ids@.len() == 0),
    {
        self.prompt_ids.len() == 0
    }
}

/// Body of the import of one file as a script.
pub struct ImportFilePayload {
    pub user_id: i64,
    pub path: String,
    pub is_synced: bool,
    pub script_language: Option<String>,
}

impl ImportFilePayload {
    /// Files are only imported for the session user.
    pub fn authorize(&self, session_user_id: i64) -> (r: Result<(), ApiError>)
        ensures
            r is Ok <==> self.user_id == session_user_id,
            r matches Err(e) ==> api_view(e) == other_user_error(),
    {
        verify_user_id_param(session_user_id, self.user_id)
    }

    /// Checks what the filesystem reports about the file to import.
    pub fn check_file(&self, kind: &FileKind, size: u64) -> (r: Result<(), ServiceError>)
        ensures
            match (r, file_problem(self.path@, *kind, size)) {
                (Ok(()), None) => true,
                (Err(e), Some(p)) => is_path_error(e, p),
                _ => false,
            },
    {
        check_import_file(self.path.as_str(), kind, size)
    }

    /// The script the import creates from the file's text (`None` when it
    /// was not valid UTF-8).
    pub fn to_script(&self, text: Option<String>) -> (r: Result<NewScriptDraft, ServiceError>)
        ensures
            match text {
                None => r matches Err(e) && is_path_error(
                    e,
                    "file is not valid UTF-8: "@ + self.path@,
                ),
                Some(t) => if is_blank_spec(t@) {
                    r matches Err(e) && is_blank_content_error(e)
                } else if t@.contains('\0') {
                    r matches Err(e) && is_path_error(e, "file contains null bytes"@)
                } else {
                    r matches Ok(d) && d.user_id == self.user_id && d.title@ == import_title(
                        self.path@,
                    ) && d.content@ == t@ && d.script_language@ == (match self.script_language {
                        Some(l) => l@,
                        None => detect_language_spec(import_title(self.path@)),
                    }) && d.is_synced == self.is_synced && (d.source_path matches Some(p) ==> p@
                        == self.path@) && (d.source_path is Some <==> self.is_synced)
                },
            },
    {
        let lang = match &self.script_language {
            Some(l) => Some(l.as_str()),
            None => None,
        };
        script_from_file(self.user_id, self.path.as_str(), self.is_synced, lang, text)
    }
}

// ---------------------------------------------------------------------------
// Sessions
// ---------------------------------------------------------------------------

/// Body of session creation: the user the session starts with.
pub struct CreateSessionPayload {
    pub user_id: i64,
}

/// Body of a user switch within the current session.
pub struct SwitchSessionPayload {
    pub user_id: i64,
}

/// Switches the user of the request's session. A session that no longer
/// exists answers 401.
pub fn switch_session(
    store: &mut SessionStore,
    auth: &AuthSession,
    payload: &SwitchSessionPayload,
    now_secs: u64,
) -> (r: Result<(), ApiError>)
    requires
        old(store).wf(),
    ensures
        final(store).wf(),
        r is Ok <==> (hex_decoded(encode_utf8(auth.session_token@)) matches Some(k) && old(
            store,
        ).view().contains_key(k)),
        r is Ok ==> final(store).view() == old(store).view().insert(
            hex_decoded(encode_utf8(auth.session_token@))->0,
            (
                payload.user_id,
                old(store).view()[hex_decoded(encode_utf8(auth.session_token@))->0].1,
                now_secs,
                old(store).view()[hex_decoded(encode_utf8(auth.session_token@))->0].3,
            ),
        ),
        r is Err ==> final(store).view() == old(store).view() && api_view(r->Err_0) == (
            401u16,
            "AUTH_REQUIRED"@,
            "session not found"@,
        ),
        final(store).capacity() == old(store).capacity(),
        final(store).ttl() == old(store).ttl(),
        final(store).localhost() == old(store).localhost(),
{
    if store.set_session_user(auth.session_token.as_str(), payload.user_id, now_secs) {
        Ok(())
    } else {
        Err(ApiError::new(401, "AUTH_REQUIRED", String::from_str("session not found")))
    }
}

/// The user shown by the session endpoint.
pub struct SessionMeUser {
    pub id: i64,
    pub username: String,
    pub display_name: String,
}

/// Answer of the session endpoint; the token itself is never included.
pub struct SessionMeResponse {
    pub user: Option<SessionMeUser>,
    pub remaining_ttl_secs: Option<u64>,
}

/// What a live session reports to the session endpoint: its user and the
/// whole seconds of lifetime it has left.
pub struct SessionStatus {
    pub user_id: Option<i64>,
    pub remaining_ttl_secs: u64,
}

/// Looks up the session named by the request's cookie token for the
/// session endpoint.
pub fn session_status(store: &mut SessionStore, token: Option<&str>, now_ms: u64, now_secs: u64) -> (r:
    Option<SessionStatus>)
    requires
        old(store).wf(),
    ensures
        final(store).wf(),
        final(store).capacity() == old(store).capacity(),
        final(store).ttl() == old(store).ttl(),
        final(store).localhost() == old(store).localhost(),
        match token {
            None => r is None && final(store).view() == old(store).view(),
            Some(t) => final(store).view() == after_lookup_spec(
                old(store).view(),
                t.spec_bytes(),
                now_ms,
                now_secs,
                old(store).ttl(),
            ) && match lookup_spec(old(store).view(), t.spec_bytes(), now_ms, old(store).ttl()) {
                Some((u, created, _)) => r matches Some(s) && s.user_id == u && s.remaining_ttl_secs
                    == (if now_ms <= created {
                    old(store).ttl() as int
                } else if now_ms - created >= old(store).ttl() {
                    0
                } else {
                    old(store).ttl() - (now_ms - created)
                }) / 1000,
                None => r is None,
            },
        },
{
    match token {
        None => None,
        Some(t) => {
            let ttl = store.session_ttl();
            match store.get_session(t, now_ms, now_secs) {
                Some(info) => Some(
                    SessionStatus {
                        user_id: info.user_id,
                        remaining_ttl_secs: crate::session::remaining_ttl_secs(
                            info.created_at_ms,
                            now_ms,
                            ttl,
                        ),
                    },
                ),
                None => None,
            }
        },
    }
}

impl SessionMeResponse {
    /// The answer for a request: empty without a live session; otherwise the
    /// remaining lifetime and, when the session has a user, that user as
    /// loaded (`loaded` is the outcome of loading the session's user, which
    /// matters only when the session has one). A failed load is the answer's
    /// error.
    pub fn assemble(status: Option<SessionStatus>, loaded: Result<Option<SessionMeUser>, ApiError>) -> (r:
        Result<SessionMeResponse, ApiError>)
        ensures
            match status {
                None => r matches Ok(m) && m.user is None && m.remaining_ttl_secs is None,
                Some(s) => match s.user_id {
                    None => r matches Ok(m) && m.user is None && m.remaining_ttl_secs == Some(
                        s.remaining_ttl_secs,
                    ),
                    Some(_) => match loaded {
                        Ok(u) => r matches Ok(m) && m.user == u && m.remaining_ttl_secs == Some(
                            s.remaining_ttl_secs,
                        ),
                        Err(e) => r matches Err(f) && f == e,
                    },
                },
            },
    {
        match status {
            None => Ok(SessionMeResponse { user: None, remaining_ttl_secs: None }),
            Some(s) => match s.user_id {
                None => Ok(SessionMeResponse { user: None, remaining_ttl_secs: Some(s.remaining_ttl_secs) }),
                Some(_) => match loaded {
                    Ok(u) => Ok(SessionMeResponse { user: u, remaining_ttl_secs: Some(s.remaining_ttl_secs) }),
                    Err(e) => Err(e),
                },
            },
        }
    }
}

// ---------------------------------------------------------------------------
// Clipboard
// ---------------------------------------------------------------------------

/// Body of a copy to the clipboard history.
pub struct CopyPayload {
    pub content: String,
    pub prompt_title: String,
}

/// Answer of a copy: whether it was recorded, or else the template
/// variables that still need values.
pub struct CopyResult {
    pub copied: bool,
    pub variables: Vec<String>,
}

impl ClipboardState {
    /// Records a copy in the user's history, unless the content still holds
    /// unresolved template variables: those are returned instead and the
    /// history is left alone.
    pub fn copy_content(&mut self, user_id: i64, payload: CopyPayload, variables: Vec<String>, copied_at: String) -> (r:
        CopyResult)
        requires
            old(self).wf(),
        ensures
            final(self).wf(),
            variables@.len() > 0 ==> !r.copied && r.variables@ == variables@ && final(self).view()
                == old(self).view() && final(self).log() == old(self).log(),
            variables@.len() == 0 ==> final(self).log() == old(self).log().push(
                (user_id, Some((payload.content@, payload.prompt_title@, copied_at@))),
            ),
            variables@.len() == 0 ==> r.copied && r.variables@.len() == 0 && final(self).view()
                == old(self).view().insert(
                user_id,
                pushed(
                    old(self).history(user_id),
                    (payload.content@, payload.prompt_title@, copied_at@),
                ),
            ),
    {
        if variables.len() > 0 {
            return CopyResult { copied: false, variables };
        }
        let entry = ClipboardEntry {
            content: payload.content,
            prompt_title: payload.prompt_title,
            copied_at,
        };
        self.push(user_id, entry);
        CopyResult { copied: true, variables: Vec::new() }
    }
}

// ---------------------------------------------------------------------------
// Health
// ---------------------------------------------------------------------------

/// Answer of the health endpoint.
pub struct HealthResponse {
    pub status: String,
    pub version: String,
}

/// The health answer of a running server of the given version.
pub fn health_response(version: &str) -> (r: HealthResponse)
    ensures
        r.status@ == "ok"@,
        r.version@ == version@,
{
    HealthResponse { status: String::from_str("ok"), version: String::from_str(version) }
}

// ---------------------------------------------------------------------------
// Chain variables
// ---------------------------------------------------------------------------

/// The template variables of one chain step.
pub struct StepVariableInfo {
    pub position: i32,
    pub step_type: String,
    pub title: String,
    pub variables: Vec<String>,
}

/// The template variables of a chain: per step, and all of them once each
/// in order of first appearance.
pub struct ChainVariablesResponse {
    pub variables: Vec<String>,
    pub steps: Vec<StepVariableInfo>,
}

/// The title and content a step shows: those of its prompt, else those of
/// its script, else empty.
pub open spec fn step_text(prompt: Option<(Seq<char>, Seq<char>)>, script: Option<(Seq<char>, Seq<char>)>) -> (
    Seq<char>,
    Seq<char>,
) {
    match prompt {
        Some(p) => p,
        None => match script {
            Some(s) => s,
            None => (Seq::empty(), Seq::empty()),
        },
    }
}

/// A step's referenced prompt or script, as (title, content).
pub struct StepSource {
    pub title: String,
    pub content: String,
}

/// The view of an optional step source.
pub open spec fn source_view(s: Option<StepSource>) -> Option<(Seq<char>, Seq<char>)> {
    match s {
        Some(x) => Some((x.title@, x.content@)),
        None => None,
    }
}

/// The title and content shown for a step.
pub fn step_title_and_content(prompt: &Option<StepSource>, script: &Option<StepSource>) -> (r: (
    String,
    String,
))
    ensures
        (r.0@, r.1@) == step_text(source_view(*prompt), source_view(*script)),
{
    match prompt {
        Some(p) => (String::from_str(p.title.as_str()), String::from_str(p.content.as_str())),
        None => match script {
            Some(s) => (String::from_str(s.title.as_str()), String::from_str(s.content.as_str())),
            None => (String::new(), String::new()),
        },
    }
}

/// The distinct items of `s`, each at its first position.
pub open spec fn first_occurrences(s: Seq<Seq<char>>) -> Seq<Seq<char>>
    decreases s.len(),
{
    if s.len() == 0 {
        Seq::empty()
    } else {
        let r = first_occurrences(s.drop_last());
        if r.contains(s.last()) {
            r
        } else {
            r.push(s.last())
        }
    }
}

/// Law: the aggregate variable list names every variable of the steps and
/// names each only once.
pub proof fn lemma_first_occurrences_distinct(s: Seq<Seq<char>>)
    ensures
        first_occurrences(s).no_duplicates(),
        forall|x: Seq<char>| s.contains(x) <==> #[trigger] first_occurrences(s).contains(x),
    decreases s.len(),
{
    if s.len() > 0 {
        let d = s.drop_last();
        lemma_first_occurrences_distinct(d);
        let r = first_occurrences(d);
        let l = s.last();
        let f = first_occurrences(s);
        assert(f == if r.contains(l) { r } else { r.push(l) });
        assert forall|x: Seq<char>| s.contains(x) <==> #[trigger] f.contains(x) by {
            if s.contains(x) {
                let i = choose|i: int| 0 <= i < s.len() && s[i] == x;
                if i < d.len() {
                    assert(d[i] == x);
                    assert(d.contains(x));
                    assert(r.contains(x));
                    let k = choose|k: int| 0 <= k < r.len() && r[k] == x;
                    if !r.contains(l) {
                        assert(r.push(l)[k] == x);
                    }
                } else {
                    assert(x == l);
                    if !r.contains(l) {
                        assert(r.push(l)[r.len() as int] == l);
                    }
                }
            }
            if f.contains(x) {
                let k = choose|k: int| 0 <= k < f.len() && f[k] == x;
                if k < r.len() {
                    assert(f[k] == r[k]);
                    assert(r.contains(x));
                    assert(d.contains(x));
                    let i = choose|i: int| 0 <= i < d.len() && d[i] == x;
                    assert(s[i] == x);
                } else {
                    assert(x == l);
                    assert(s[s.len() - 1] == x);
                }
            }
        }
        if !r.contains(s.last()) {
            assert forall|i: int, j: int|
                0 <= i < j < r.push(s.last()).len() implies r.push(s.last())[i] != r.push(
                s.last(),
            )[j] by {
                if j == r.len() {
                    assert(r.push(s.last())[i] == r[i]);
                }
            }
        }
    }
}

/// The variables of all steps, in step order.
pub open spec fn all_step_variables(steps: Seq<StepVariableInfo>) -> Seq<Seq<char>>
    decreases steps.len(),
{
    if steps.len() == 0 {
        Seq::empty()
    } else {
        all_step_variables(steps.drop_last()) + steps.last().variables@.map_values(
            |v: String| v@,
        )
    }
}

fn contains_text(v: &Vec<String>, x: &str) -> (b: bool)
    ensures
        b == v@.map_values(|s: String| s@).contains(x@),
{
    let mut i: usize = 0;
    while i < v.len()
        invariant
            i <= v@.len(),
            forall|k: int| 0 <= k < i ==> v@[k]@ != x@,
        decreases v@.len() - i,
    {
        if same_text(v[i].as_str(), x) {
            assert(v@.map_values(|s: String| s@)[i as int] == x@);
            return true;
        }
        i = i + 1;
    }
    let ghost m = v@.map_values(|s: String| s@);
    assert forall|k: int| 0 <= k < m.len() implies #[trigger] m[k] != x@ by {
        assert(m[k] == v@[k]@);
    }
    false
}

/// Gathers the variables of a chain's steps: the steps as given, and the
/// distinct variables in order of first appearance.
pub fn chain_variables(steps: Vec<StepVariableInfo>) -> (r: ChainVariablesResponse)
    ensures
        r.steps@ == steps@,
        r.variables@.map_values(|v: String| v@) == first_occurrences(all_step_variables(steps@)),
{
    let mut all: Vec<String> = Vec::new();
    let mut i: usize = 0;
    while i < steps.len()
        invariant
            i <= steps@.len(),
            all@.map_values(|v: String| v@) == first_occurrences(
                all_step_variables(steps@.take(i as int)),
            ),
        decreases steps@.len() - i,
    {
        let vars = &steps[i].variables;
        let ghost prefix = all_step_variables(steps@.take(i as int));
        let ghost vs = vars@.map_values(|v: String| v@);
        assert(steps@.take(i + 1).drop_last() =~= steps@.take(i as int));
        assert(all_step_variables(steps@.take(i + 1)) == prefix + vs);
        let mut j: usize = 0;
        while j < vars.len()
            invariant
                j <= vars@.len(),
                vs == vars@.map_values(|v: String| v@),
                all@.map_values(|v: String| v@) == first_occurrences(prefix + vs.take(j as int)),
            decreases vars@.len() - j,
        {
            let ghost before = all@;
            assert((prefix + vs.take(j + 1)).drop_last() =~= prefix + vs.take(j as int));
            assert((prefix + vs.take(j + 1)).last() == vars@[j as int]@);
            if !contains_text(&all, vars[j].as_str()) {
                all.push(String::from_str(vars[j].as_str()));
                assert(all@.map_values(|v: String| v@) =~= before.map_values(|v: String| v@).push(
                    vars@[j as int]@,
                ));
            }
            j = j + 1;
        }
        assert(vs.take(vs.len() as int) =~= vs);
        i = i + 1;
    }
    assert(steps@.take(steps@.len() as int) =~= steps@);
    ChainVariablesResponse { variables: all, steps }
}

// ---------------------------------------------------------------------------
// Search requests
// ---------------------------------------------------------------------------

/// The filter fields of a search that the request may also give at top
/// level.
pub struct SearchFilter {
    pub limit: Option<i64>,
    pub offset: Option<i64>,
    pub is_favorite: Option<bool>,
    pub is_archived: Option<bool>,
    pub tag_id: Option<i64>,
    pub category_id: Option<i64>,
    pub collection_id: Option<i64>,
}

/// Body of a search over prompts, scripts or chains: the nested filter and
/// top-level conveniences that override it.
pub struct SearchPayload {
    pub user_id: i64,
    pub query: String,
    pub filter: SearchFilter,
    pub limit: Option<i64>,
    pub offset: Option<i64>,
    pub is_favorite: Option<bool>,
    pub is_archived: Option<bool>,
    pub tag_id: Option<i64>,
    pub category_id: Option<i64>,
    pub collection_id: Option<i64>,
}

/// A page size brought into 1..=1000.
pub open spec fn clamp_limit(l: i64) -> i64 {
    if l < 1 {
        1
    } else if l > 1000 {
        1000
    } else {
        l
    }
}

/// The value an override leaves: the override when given, else the current
/// value.
pub open spec fn overridden<T>(o: Option<T>, cur: Option<T>) -> Option<T> {
    match o {
        Some(v) => Some(v),
        None => cur,
    }
}

impl SearchPayload {
    /// Only the session user's items may be searched.
    pub fn authorize(&self, session_user_id: i64) -> (r: Result<(), ApiError>)
        ensures
            r is Ok <==> self.user_id == session_user_id,
            r matches Err(e) ==> api_view(e) == other_user_error(),
    {
        verify_user_id_param(session_user_id, self.user_id)
    }

    /// Applies the top-level overrides to the filter; a top-level limit is
    /// brought into 1..=1000.
    pub fn apply_overrides(&mut self)
        ensures
            final(self).filter.limit == (match old(self).limit {
                Some(l) => Some(clamp_limit(l)),
                None => old(self).filter.limit,
            }),
            final(self).filter.offset == overridden(old(self).offset, old(self).filter.offset),
            final(self).filter.is_favorite == overridden(
                old(self).is_favorite,
                old(self).filter.is_favorite,
            ),
            final(self).filter.is_archived == overridden(
                old(self).is_archived,
                old(self).filter.is_archived,
            ),
            final(self).filter.tag_id == overridden(old(self).tag_id, old(self).filter.tag_id),
            final(self).filter.category_id == overridden(
                old(self).category_id,
                old(self).filter.category_id,
            ),
            final(self).filter.collection_id == overridden(
                old(self).collection_id,
                old(self).filter.collection_id,
            ),
            final(self).user_id == old(self).user_id,
            final(self).query@ == old(self).query@,
    {
        if let Some(l) = self.limit {
            let c = if l < 1 {
                1
            } else if l > 1000 {
                1000
            } else {
                l
            };
            self.filter.limit = Some(c);
        }
        if let Some(o) = self.offset {
            self.filter.offset = Some(o);
        }
        if let Some(f) = self.is_favorite {
            self.filter.is_favorite = Some(f);
        }
        if let Some(a) = self.is_archived {
            self.filter.is_archived = Some(a);
        }
        if let Some(t) = self.tag_id {
            self.filter.tag_id = Some(t);
        }
        if let Some(c) = self.category_id {
            self.filter.category_id = Some(c);
        }
        if let Some(c) = self.collection_id {
            self.filter.collection_id = Some(c);
        }
    }
}

} // verus!

//! Per-user settings: applying a partial update, and the checks on the
//! free-form `extra` field, which must be a JSON object of at most 64 KiB.
use vstd::prelude::*;
use vstd::string::StringExecFns;
use vstd::utf8::encode_utf8;
use crate::access::verify_user_id_param;
use crate::changes::opt_view;
use crate::errors::{ApiError, CoreError, ServiceError, api_view};
use crate::files::same_text;

verus! {

/// Maximum size in bytes of the `extra` settings field.
pub const MAX_EXTRA_BYTES: usize = 65536;

/// What `serde_json::from_str::<serde_json::Value>` makes of a text: `Ok`
/// with whether the value is an object, or `Err` with the parser's message.
pub uninterp spec fn json_object_test(s: Seq<char>) -> Result<bool, Seq<char>>;

/// The characters of a parse outcome.
pub open spec fn json_outcome_view(r: Result<bool, String>) -> Result<bool, Seq<char>> {
    match r {
        Ok(b) => Ok(b),
        Err(m) => Err(m@),
    }
}

/// `serde_json::from_str::<Value>` from serde_json, followed by telling an
/// object apart from the other kinds of value; a parse error is returned as
/// its `Display` text. The outcome depends on the text alone.
#[verifier::external_body]
fn parse_json_object(s: &str) -> (r: Result<bool, String>)
    ensures
        json_outcome_view(r) == json_object_test(s@),
{
    match serde_json::from_str::<serde_json::Value>(s) {
        Ok(serde_json::Value::Object(_)) => Ok(true),
        Ok(_) => Ok(false),
        Err(e) => Err(e.to_string()),
    }
}

/// The message for an `extra` value that is not an acceptable JSON object,
/// given what the parser made of it; `None` when it is a JSON object.
pub open spec fn extra_json_problem(parsed: Result<bool, Seq<char>>) -> Option<Seq<char>> {
    match parsed {
        Ok(true) => None,
        Ok(false) => Some("extra field must be a JSON object"@),
        Err(e) => Some("extra field must be valid JSON: "@ + e),
    }
}

/// The message for an `extra` value that is too large.
pub open spec fn extra_size_message() -> Seq<char> {
    "extra field exceeds maximum size of 65536 bytes"@
}

/// Judges an `extra` value from what the JSON parser made of it.
pub fn extra_json_verdict(parsed: &Result<bool, String>) -> (r: Result<(), String>)
    ensures
        match (r, extra_json_problem(json_outcome_view(*parsed))) {
            (Ok(()), None) => true,
            (Err(m), Some(p)) => m@ == p,
            _ => false,
        },
{
    match parsed {
        Ok(true) => Ok(()),
        Ok(false) => Err(String::from_str("extra field must be a JSON object")),
        Err(e) => {
            let mut m = String::from_str("extra field must be valid JSON: ");
            m.append(e.as_str());
            Err(m)
        },
    }
}

/// Why an `extra` value is refused, if it is: larger than `MAX_EXTRA_BYTES`
/// bytes, or not a JSON object.
pub open spec fn extra_problem(extra: Seq<char>) -> Option<Seq<char>> {
    if encode_utf8(extra).len() > MAX_EXTRA_BYTES {
        Some(extra_size_message())
    } else {
        extra_json_problem(json_object_test(extra))
    }
}

/// Checks an `extra` value: at most `MAX_EXTRA_BYTES` bytes, and a JSON
/// object.
pub fn check_extra(extra: &str) -> (r: Result<(), String>)
    ensures
        match (r, extra_problem(extra@)) {
            (Ok(()), None) => true,
            (Err(m), Some(p)) => m@ == p,
            _ => false,
        },
{
    if extra.as_bytes().len() > MAX_EXTRA_BYTES {
        return Err(String::from_str("extra field exceeds maximum size of 65536 bytes"));
    }
    let parsed = parse_json_object(extra);
    extra_json_verdict(&parsed)
}

/// The check before stored settings are written: an empty `extra` or "{}"
/// is accepted as is, any other value must pass `check_extra`; a refusal is
/// a validation error of the field `extra`.
pub fn validate_stored_extra(extra: &str) -> (r: Result<(), ServiceError>)
    ensures
        (extra@.len() == 0 || extra@ == "{}"@) ==> r is Ok,
        !(extra@.len() == 0 || extra@ == "{}"@) ==> match (r, extra_problem(extra@)) {
            (Ok(()), None) => true,
            (Err(e), Some(p)) => e matches ServiceError::Core(
                CoreError::Validation { field, message },
            ) && field@ == "extra"@ && message@ == p,
            _ => false,
        },
{
    if extra.unicode_len() == 0 || same_text(extra, "{}") {
        return Ok(());
    }
    match check_extra(extra) {
        Ok(()) => Ok(()),
        Err(m) => Err(
            ServiceError::Core(CoreError::Validation { field: String::from_str("extra"), message: m }),
        ),
    }
}

/// A user's settings. Theme and sort choices are kept in their textual
/// form.
pub struct UserSettings {
    pub user_id: i64,
    pub theme: String,
    pub last_collection_id: Option<i64>,
    pub sidebar_collapsed: bool,
    pub sort_field: String,
    pub sort_direction: String,
    pub ollama_base_url: String,
    pub ollama_model: Option<String>,
    pub extra: String,
}

/// A partial settings update: only the fields present are applied. For the
/// nullable fields, `Some(None)` clears the value.
pub struct PatchUserSettingsPayload {
    pub user_id: i64,
    pub theme: Option<String>,
    pub last_collection_id: Option<Option<i64>>,
    pub sidebar_collapsed: Option<bool>,
    pub sort_field: Option<String>,
    pub sort_direction: Option<String>,
    pub ollama_base_url: Option<String>,
    pub ollama_model: Option<Option<String>>,
    pub extra: Option<String>,
}

/// The view of optional text.
pub open spec fn or_keep(p: Option<String>, cur: String) -> Seq<char> {
    match p {
        Some(v) => v@,
        None => cur@,
    }
}

/// Whether `new` is `current` with the patch's present fields applied.
pub open spec fn patched(current: UserSettings, patch: PatchUserSettingsPayload, new: UserSettings) -> bool {
    &&& new.user_id == current.user_id
    &&& new.theme@ == or_keep(patch.theme, current.theme)
    &&& new.last_collection_id == (match patch.last_collection_id {
        Some(v) => v,
        None => current.last_collection_id,
    })
    &&& new.sidebar_collapsed == (match patch.sidebar_collapsed {
        Some(v) => v,
        None => current.sidebar_collapsed,
    })
    &&& new.sort_field@ == or_keep(patch.sort_field, current.sort_field)
    &&& new.sort_direction@ == or_keep(patch.sort_direction, current.sort_direction)
    &&& new.ollama_base_url@ == or_keep(patch.ollama_base_url, current.ollama_base_url)
    &&& opt_view(new.ollama_model) == (match patch.ollama_model {
        Some(v) => opt_view(v),
        None => opt_view(current.ollama_model),
    })
    &&& new.extra@ == or_keep(patch.extra, current.extra)
}

impl PatchUserSettingsPayload {
    /// Only the session user's settings may be changed.
    pub fn authorize(&self, session_user_id: i64) -> (r: Result<(), ApiError>)
        ensures
            r is Ok <==> self.user_id == session_user_id,
            r matches Err(e) ==> api_view(e) == (
                403u16,
                "FORBIDDEN"@,
                "cannot access resources of another user"@,
            ),
    {
        verify_user_id_param(session_user_id, self.user_id)
    }

    /// Applies the present fields to the current settings. A present
    /// `extra` must pass `check_extra`, or nothing is applied and the
    /// request is refused with status 400.
    pub fn apply(self, current: UserSettings) -> (r: Result<UserSettings, ApiError>)
        ensures
            match self.extra {
                Some(x) => match extra_problem(x@) {
                    Some(p) => r matches Err(e) && api_view(e) == (400u16, "VALIDATION_ERROR"@, p),
                    None => r matches Ok(n) && patched(current, self, n),
                },
                None => r matches Ok(n) && patched(current, self, n),
            },
    {
        let ghost patch = self;
        let ghost cur = current;
        if let Some(x) = &self.extra {
            if let Err(m) = check_extra(x.as_str()) {
                return Err(ApiError::new(400, "VALIDATION_ERROR", m));
            }
        }
        let mut n = current;
        if let Some(t) = self.theme {
            n.theme = t;
        }
        if let Some(c) = self.last_collection_id {
            n.last_collection_id = c;
        }
        if let Some(s) = self.sidebar_collapsed {
            n.sidebar_collapsed = s;
        }
        if let Some(f) = self.sort_field {
            n.sort_field = f;
        }
        if let Some(d) = self.sort_direction {
            n.sort_direction = d;
        }
        if let Some(u) = self.ollama_base_url {
            n.ollama_base_url = u;
        }
        if let Some(m) = self.ollama_model {
            n.ollama_model = m;
        }
        if let Some(x) = self.extra {
            n.extra = x;
        }
        assert(patched(cur, patch, n));
        Ok(n)
    }
}

/// Law: a settings patch sets every field it holds to the value given and
/// leaves every field it omits as it was; the user stays the same.
pub proof fn lemma_patch_sets_present_fields(
    current: UserSettings,
    patch: PatchUserSettingsPayload,
    new: UserSettings,
)
    requires
        patched(current, patch, new),
    ensures
        new.user_id == current.user_id,
        patch.theme matches Some(v) ==> new.theme@ == v@,
        patch.theme is None ==> new.theme@ == current.theme@,
        patch.last_collection_id matches Some(v) ==> new.last_collection_id == v,
        patch.last_collection_id is None ==> new.last_collection_id == current.last_collection_id,
        patch.sidebar_collapsed matches Some(v) ==> new.sidebar_collapsed == v,
        patch.sidebar_collapsed is None ==> new.sidebar_collapsed == current.sidebar_collapsed,
        patch.sort_field matches Some(v) ==> new.sort_field@ == v@,
        patch.sort_field is None ==> new.sort_field@ == current.sort_field@,
        patch.sort_direction matches Some(v) ==> new.sort_direction@ == v@,
        patch.sort_direction is None ==> new.sort_direction@ == current.sort_direction@,
        patch.ollama_base_url matches Some(v) ==> new.ollama_base_url@ == v@,
        patch.ollama_base_url is None ==> new.ollama_base_url@ == current.ollama_base_url@,
        patch.ollama_model matches Some(Some(v)) ==> (new.ollama_model matches Some(m) && m@ == v@),
        patch.ollama_model matches Some(None) ==> new.ollama_model is None,
        patch.ollama_model is None ==> opt_view(new.ollama_model) == opt_view(current.ollama_model),
        patch.extra matches Some(v) ==> new.extra@ == v@,
        patch.extra is None ==> new.extra@ == current.extra@,
{
}

} // verus!

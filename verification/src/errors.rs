//! Error types of the library and their mapping to HTTP error responses.
//!
//! `CoreError` holds the domain failures (validation, missing or duplicate
//! entities, ...), `ServiceError` everything a service operation can fail
//! with, and `ApiError` the status code and JSON body that a client sees.
//! Internal details never reach the client body for database, I/O,
//! serialization and model-server failures.
use vstd::prelude::*;
use vstd::string::StringExecFns;
use crate::text::{append_int, int_decimal};
use crate::metadata::string_views;

verus! {

/// A domain validation or lookup failure.
pub enum CoreError {
    /// A field failed validation.
    Validation { field: String, message: String },
    /// No entity of the given kind has the given id.
    NotFound { entity: String, id: i64 },
    /// An entity with the same unique field value already exists.
    Duplicate { entity: String, field: String, value: String },
    /// The entity is still referenced and cannot be removed.
    EntityInUse { entity_type: String, entity_id: i64, referencing_titles: Vec<String> },
    /// The caller may not perform the operation.
    Authorization { message: String },
    /// A path escaped the directory it must stay in.
    PathTraversal { path: String },
    /// The stored version differs from the one the client expected.
    Conflict { entity: String, id: i64, expected: i64, actual: i64 },
}

/// A failure of the persistence layer.
pub enum DatabaseError {
    /// A domain error raised inside a database operation.
    Core(CoreError),
    /// Any other storage failure, with its description.
    Storage(String),
}

/// Error type for all service-layer operations.
pub enum ServiceError {
    /// A domain validation or not-found error.
    Core(CoreError),
    /// A database operation failed.
    Database(DatabaseError),
    /// The model server is not reachable or answered with a failure status.
    OllamaUnavailable(String),
    /// The model server's answer could not be used.
    OllamaError(String),
    /// A filesystem operation failed; the payload describes it.
    IoError(String),
    /// JSON or YAML (de)serialization failed.
    SerializationError(String),
}

/// Structured JSON error body returned to API clients.
pub struct ErrorBody {
    pub code: String,
    pub message: String,
}

/// API error: HTTP status code and JSON body.
pub struct ApiError {
    pub status: u16,
    pub body: ErrorBody,
}

/// The spec-level view of an API error: status, code and message.
pub open spec fn api_view(e: ApiError) -> (u16, Seq<char>, Seq<char>) {
    (e.status, e.body.code@, e.body.message@)
}

/// `str::to_uppercase` (Unicode case mapping) on a character sequence.
pub uninterp spec fn unicode_uppercase(s: Seq<char>) -> Seq<char>;

/// `str::to_uppercase` from std: the Unicode uppercase mapping of the string;
/// the result depends on the argument alone.
#[verifier::external_body]
fn to_uppercase(s: &str) -> (r: String)
    ensures
        r@ == unicode_uppercase(s@),
{
    s.to_uppercase()
}

/// The items separated by ", ".
pub open spec fn joined(items: Seq<Seq<char>>) -> Seq<char>
    decreases items.len(),
{
    if items.len() == 0 {
        Seq::empty()
    } else if items.len() == 1 {
        items[0]
    } else {
        joined(items.drop_last()) + ", "@ + items.last()
    }
}

/// Appends the items separated by ", ".
fn append_joined(s: &mut String, items: &Vec<String>)
    ensures
        final(s)@ == old(s)@ + joined(string_views(items@)),
{
    let ghost start = s@;
    let mut i: usize = 0;
    while i < items.len()
        invariant
            i <= items@.len(),
            s@ == start + joined(string_views(items@).take(i as int)),
        decreases items@.len() - i,
    {
        let ghost before = s@;
        assert(string_views(items@).take(i + 1).drop_last() =~= string_views(items@).take(i as int));
        if i > 0 {
            s.append(", ");
        }
        s.append(items[i].as_str());
        i = i + 1;
        if i == 1 {
            assert(s@ =~= start + joined(string_views(items@).take(i as int)));
        } else {
            assert(s@ =~= start + joined(string_views(items@).take(i as int)));
        }
    }
    assert(string_views(items@).take(items@.len() as int) =~= string_views(items@));
}

/// The human-readable text of a domain error (its `Display` form).
pub open spec fn core_error_text(e: CoreError) -> Seq<char> {
    match e {
        CoreError::Validation { field, message } => field@ + ": "@ + message@,
        CoreError::NotFound { entity, id } => entity@ + " "@ + int_decimal(id as int)
            + " not found"@,
        CoreError::Duplicate { entity, field, value } => entity@ + " with "@ + field@ + " '"@
            + value@ + "' already exists"@,
        CoreError::EntityInUse { entity_type, entity_id, referencing_titles } => entity_type@
            + " "@ + int_decimal(entity_id as int) + " is still referenced by: "@ + joined(
            string_views(referencing_titles@),
        ),
        CoreError::Authorization { message } => "not authorized: "@ + message@,
        CoreError::PathTraversal { path } => "path outside the allowed directory: "@ + path@,
        CoreError::Conflict { entity, id, expected, actual } => entity@ + " "@ + int_decimal(
            id as int,
        ) + ": expected version "@ + int_decimal(expected as int) + ", found "@ + int_decimal(
            actual as int,
        ),
    }
}

impl CoreError {
    /// The human-readable text of this error.
    pub fn describe(&self) -> (s: String)
        ensures
            s@ == core_error_text(*self),
    {
        match self {
            CoreError::Validation { field, message } => {
                let mut s = String::from_str(field.as_str());
                s.append(": ");
                s.append(message.as_str());
                s
            },
            CoreError::NotFound { entity, id } => {
                let mut s = String::from_str(entity.as_str());
                s.append(" ");
                append_int(&mut s, *id);
                s.append(" not found");
                s
            },
            CoreError::Duplicate { entity, field, value } => {
                let mut s = String::from_str(entity.as_str());
                s.append(" with ");
                s.append(field.as_str());
                s.append(" '");
                s.append(value.as_str());
                s.append("' already exists");
                s
            },
            CoreError::EntityInUse { entity_type, entity_id, referencing_titles } => {
                let mut s = String::from_str(entity_type.as_str());
                s.append(" ");
                append_int(&mut s, *entity_id);
                s.append(" is still referenced by: ");
                append_joined(&mut s, referencing_titles);
                s
            },
            CoreError::Authorization { message } => {
                let mut s = String::from_str("not authorized: ");
                s.append(message.as_str());
                s
            },
            CoreError::PathTraversal { path } => {
                let mut s = String::from_str("path outside the allowed directory: ");
                s.append(path.as_str());
                s
            },
            CoreError::Conflict { entity, id, expected, actual } => {
                let mut s = String::from_str(entity.as_str());
                s.append(" ");
                append_int(&mut s, *id);
                s.append(": expected version ");
                append_int(&mut s, *expected);
                s.append(", found ");
                append_int(&mut s, *actual);
                s
            },
        }
    }
}

/// The human-readable text of a service error (its `Display` form). Domain
/// errors show through unchanged.
pub open spec fn service_error_text(e: ServiceError) -> Seq<char> {
    match e {
        ServiceError::Core(c) => core_error_text(c),
        ServiceError::Database(DatabaseError::Core(c)) => core_error_text(c),
        ServiceError::Database(DatabaseError::Storage(s)) => s@,
        ServiceError::OllamaUnavailable(m) => "Ollama unavailable: "@ + m@,
        ServiceError::OllamaError(m) => "Ollama error: "@ + m@,
        ServiceError::IoError(m) => "I/O error: "@ + m@,
        ServiceError::SerializationError(m) => "Serialization error: "@ + m@,
    }
}

impl ServiceError {
    /// The human-readable text of this error.
    pub fn describe(&self) -> (s: String)
        ensures
            s@ == service_error_text(*self),
    {
        match self {
            ServiceError::Core(c) => c.describe(),
            ServiceError::Database(DatabaseError::Core(c)) => c.describe(),
            ServiceError::Database(DatabaseError::Storage(s)) => String::from_str(s.as_str()),
            ServiceError::OllamaUnavailable(m) => {
                let mut s = String::from_str("Ollama unavailable: ");
                s.append(m.as_str());
                s
            },
            ServiceError::OllamaError(m) => {
                let mut s = String::from_str("Ollama error: ");
                s.append(m.as_str());
                s
            },
            ServiceError::IoError(m) => {
                let mut s = String::from_str("I/O error: ");
                s.append(m.as_str());
                s
            },
            ServiceError::SerializationError(m) => {
                let mut s = String::from_str("Serialization error: ");
                s.append(m.as_str());
                s
            },
        }
    }
}

/// The status, code and message that a domain error maps to.
pub open spec fn core_error_response(e: CoreError) -> (u16, Seq<char>, Seq<char>) {
    match e {
        CoreError::Validation { .. } => (400, "VALIDATION_ERROR"@, core_error_text(e)),
        CoreError::NotFound { .. } => (404, "NOT_FOUND"@, core_error_text(e)),
        CoreError::Duplicate { .. } => (409, "DUPLICATE"@, core_error_text(e)),
        CoreError::EntityInUse { entity_type, .. } => (
            409,
            unicode_uppercase(entity_type@) + "_IN_USE"@,
            core_error_text(e),
        ),
        CoreError::Authorization { .. } => (403, "AUTHORIZATION_ERROR"@, core_error_text(e)),
        CoreError::PathTraversal { .. } => (403, "PATH_TRAVERSAL"@, "Path access denied"@),
        CoreError::Conflict { .. } => (
            409,
            "VERSION_CONFLICT"@,
            "A version conflict occurred; please reload and retry"@,
        ),
    }
}

/// The status, code and message that a service error maps to.
pub open spec fn service_error_response(e: ServiceError) -> (u16, Seq<char>, Seq<char>) {
    match e {
        ServiceError::Core(c) => core_error_response(c),
        ServiceError::Database(DatabaseError::Core(c)) => core_error_response(c),
        ServiceError::Database(DatabaseError::Storage(_)) => (
            500,
            "DATABASE_ERROR"@,
            "An internal database error occurred"@,
        ),
        ServiceError::OllamaUnavailable(_) => (
            502,
            "OLLAMA_UNAVAILABLE"@,
            "The Ollama service is currently unavailable"@,
        ),
        ServiceError::OllamaError(_) => (502, "OLLAMA_ERROR"@, "Ollama operation failed"@),
        ServiceError::IoError(_) => (500, "IO_ERROR"@, "An internal I/O error occurred"@),
        ServiceError::SerializationError(_) => (
            500,
            "SERIALIZATION_ERROR"@,
            "A serialization error occurred"@,
        ),
    }
}

impl ApiError {
    /// An error with the given status, code and message.
    pub fn new(status: u16, code: &str, message: String) -> (e: ApiError)
        ensures
            api_view(e) == (status, code@, message@),
    {
        ApiError { status, body: ErrorBody { code: String::from_str(code), message } }
    }

    /// An internal server error.
    pub fn internal(message: String) -> (e: ApiError)
        ensures
            api_view(e) == (500u16, "INTERNAL_ERROR"@, message@),
    {
        ApiError::new(500, "INTERNAL_ERROR", message)
    }

    /// A clipboard-specific error.
    pub fn clipboard(message: String) -> (e: ApiError)
        ensures
            api_view(e) == (500u16, "CLIPBOARD_ERROR"@, message@),
    {
        ApiError::new(500, "CLIPBOARD_ERROR", message)
    }

    /// Maps a domain error to its response.
    pub fn from_core_error(err: &CoreError) -> (e: ApiError)
        ensures
            api_view(e) == core_error_response(*err),
    {
        match err {
            CoreError::Validation { .. } => ApiError::new(400, "VALIDATION_ERROR", err.describe()),
            CoreError::NotFound { .. } => ApiError::new(404, "NOT_FOUND", err.describe()),
            CoreError::Duplicate { .. } => ApiError::new(409, "DUPLICATE", err.describe()),
            CoreError::EntityInUse { entity_type, .. } => {
                let code = to_uppercase(entity_type.as_str()).concat("_IN_USE");
                ApiError::new(409, code.as_str(), err.describe())
            },
            CoreError::Authorization { .. } => ApiError::new(
                403,
                "AUTHORIZATION_ERROR",
                err.describe(),
            ),
            CoreError::PathTraversal { .. } => ApiError::new(
                403,
                "PATH_TRAVERSAL",
                String::from_str("Path access denied"),
            ),
            CoreError::Conflict { .. } => ApiError::new(
                409,
                "VERSION_CONFLICT",
                String::from_str("A version conflict occurred; please reload and retry"),
            ),
        }
    }

    /// Maps a service error to its response. Domain errors wrapped by the
    /// database layer get the status of the domain error.
    pub fn from_service_error(err: &ServiceError) -> (e: ApiError)
        ensures
            api_view(e) == service_error_response(*err),
    {
        match err {
            ServiceError::Core(c) => ApiError::from_core_error(c),
            ServiceError::Database(DatabaseError::Core(c)) => ApiError::from_core_error(c),
            ServiceError::Database(DatabaseError::Storage(_)) => ApiError::new(
                500,
                "DATABASE_ERROR",
                String::from_str("An internal database error occurred"),
            ),
            ServiceError::OllamaUnavailable(_) => ApiError::new(
                502,
                "OLLAMA_UNAVAILABLE",
                String::from_str("The Ollama service is currently unavailable"),
            ),
            ServiceError::OllamaError(_) => ApiError::new(
                502,
                "OLLAMA_ERROR",
                String::from_str("Ollama operation failed"),
            ),
            ServiceError::IoError(_) => ApiError::new(
                500,
                "IO_ERROR",
                String::from_str("An internal I/O error occurred"),
            ),
            ServiceError::SerializationError(_) => ApiError::new(
                500,
                "SERIALIZATION_ERROR",
                String::from_str("A serialization error occurred"),
            ),
        }
    }

    /// The display text of the error: "[code] message".
    pub fn to_display_string(&self) -> (s: String)
        ensures
            s@ == "["@ + self.body.code@ + "] "@ + self.body.message@,
    {
        let mut s = String::from_str("[");
        s.append(self.body.code.as_str());
        s.append("] ");
        s.append(self.body.message.as_str());
        s
    }
}

} // verus!

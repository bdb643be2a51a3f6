use vstd::prelude::*;

verus! {

/// The kinds of failure that the service reports.
#[derive(Clone, Copy, Debug, PartialEq, Eq, Structural)]
pub enum ErrorKind {
    NotFound,
    ValidationError,
    DatabaseError,
    InternalServerError,
    InvalidObjectId,
    SerializationError,
    IoError,
}

/// HTTP status of each kind.
pub open spec fn kind_status(k: ErrorKind) -> u16 {
    match k {
        ErrorKind::NotFound => 404,
        ErrorKind::ValidationError => 400,
        ErrorKind::DatabaseError => 500,
        ErrorKind::InternalServerError => 500,
        ErrorKind::InvalidObjectId => 400,
        ErrorKind::SerializationError => 400,
        ErrorKind::IoError => 500,
    }
}

/// The snake-case name of each kind, as the error body's `error` field.
pub open spec fn kind_name(k: ErrorKind) -> Seq<char> {
    match k {
        ErrorKind::NotFound => "not_found"@,
        ErrorKind::ValidationError => "validation_error"@,
        ErrorKind::DatabaseError => "database_error"@,
        ErrorKind::InternalServerError => "internal_server_error"@,
        ErrorKind::InvalidObjectId => "invalid_object_id"@,
        ErrorKind::SerializationError => "serialization_error"@,
        ErrorKind::IoError => "io_error"@,
    }
}

/// The machine-readable code of each kind, as the error body's `error_code`.
pub open spec fn kind_code(k: ErrorKind) -> Seq<char> {
    match k {
        ErrorKind::NotFound => "ERR_NOT_FOUND"@,
        ErrorKind::ValidationError => "ERR_VALIDATION"@,
        ErrorKind::DatabaseError => "ERR_DATABASE"@,
        ErrorKind::InternalServerError => "ERR_SERVER"@,
        ErrorKind::InvalidObjectId => "ERR_INVALID_ID"@,
        ErrorKind::SerializationError => "ERR_SERIALIZATION"@,
        ErrorKind::IoError => "ERR_IO"@,
    }
}

/// The human-readable title of each kind, which prefixes the full description.
pub open spec fn kind_title(k: ErrorKind) -> Seq<char> {
    match k {
        ErrorKind::NotFound => "Not Found"@,
        ErrorKind::ValidationError => "Validation Error"@,
        ErrorKind::DatabaseError => "Database Error"@,
        ErrorKind::InternalServerError => "Internal Server Error"@,
        ErrorKind::InvalidObjectId => "Invalid Object ID"@,
        ErrorKind::SerializationError => "Serialization Error"@,
        ErrorKind::IoError => "IO Error"@,
    }
}

impl ErrorKind {
    pub fn status_code(&self) -> (r: u16)
        ensures
            r == kind_status(*self),
    {
        match self {
            ErrorKind::NotFound => 404,
            ErrorKind::ValidationError => 400,
            ErrorKind::DatabaseError => 500,
            ErrorKind::InternalServerError => 500,
            ErrorKind::InvalidObjectId => 400,
            ErrorKind::SerializationError => 400,
            ErrorKind::IoError => 500,
        }
    }

    pub fn name(&self) -> (r: &'static str)
        ensures
            r@ == kind_name(*self),
    {
        match self {
            ErrorKind::NotFound => "not_found",
            ErrorKind::ValidationError => "validation_error",
            ErrorKind::DatabaseError => "database_error",
            ErrorKind::InternalServerError => "internal_server_error",
            ErrorKind::InvalidObjectId => "invalid_object_id",
            ErrorKind::SerializationError => "serialization_error",
            ErrorKind::IoError => "io_error",
        }
    }

    pub fn code(&self) -> (r: &'static str)
        ensures
            r@ == kind_code(*self),
    {
        match self {
            ErrorKind::NotFound => "ERR_NOT_FOUND",
            ErrorKind::ValidationError => "ERR_VALIDATION",
            ErrorKind::DatabaseError => "ERR_DATABASE",
            ErrorKind::InternalServerError => "ERR_SERVER",
            ErrorKind::InvalidObjectId => "ERR_INVALID_ID",
            ErrorKind::SerializationError => "ERR_SERIALIZATION",
            ErrorKind::IoError => "ERR_IO",
        }
    }

    pub fn title(&self) -> (r: &'static str)
        ensures
            r@ == kind_title(*self),
    {
        match self {
            ErrorKind::NotFound => "Not Found",
            ErrorKind::ValidationError => "Validation Error",
            ErrorKind::DatabaseError => "Database Error",
            ErrorKind::InternalServerError => "Internal Server Error",
            ErrorKind::InvalidObjectId => "Invalid Object ID",
            ErrorKind::SerializationError => "Serialization Error",
            ErrorKind::IoError => "IO Error",
        }
    }
}

/// A failure of the service: its kind and a human-readable detail.
#[derive(Debug, Clone)]
pub enum AppError {
    NotFound(String),
    ValidationError(String),
    DatabaseError(String),
    InternalServerError(String),
    InvalidObjectId(String),
    SerializationError(String),
    IoError(String),
}

/// The abstract value of an error: kind and detail text.
pub struct ErrorView {
    pub kind: ErrorKind,
    pub detail: Seq<char>,
}

impl View for AppError {
    type V = ErrorView;

    open spec fn view(&self) -> ErrorView {
        match self {
            AppError::NotFound(m) => ErrorView { kind: ErrorKind::NotFound, detail: m@ },
            AppError::ValidationError(m) => ErrorView { kind: ErrorKind::ValidationError, detail: m@ },
            AppError::DatabaseError(m) => ErrorView { kind: ErrorKind::DatabaseError, detail: m@ },
            AppError::InternalServerError(m) => ErrorView {
                kind: ErrorKind::InternalServerError,
                detail: m@,
            },
            AppError::InvalidObjectId(m) => ErrorView { kind: ErrorKind::InvalidObjectId, detail: m@ },
            AppError::SerializationError(m) => ErrorView {
                kind: ErrorKind::SerializationError,
                detail: m@,
            },
            AppError::IoError(m) => ErrorView { kind: ErrorKind::IoError, detail: m@ },
        }
    }
}

/// An error of kind `k` with detail `d`.
pub open spec fn error_of(k: ErrorKind, d: Seq<char>) -> ErrorView {
    ErrorView { kind: k, detail: d }
}

/// The full description of an error: its kind's title, a colon, the detail.
pub open spec fn described(e: ErrorView) -> Seq<char> {
    kind_title(e.kind) + ": "@ + e.detail
}

/// The structured body that reports an error to a client.
#[derive(Debug, Clone)]
pub struct ErrorResponse {
    pub status: u16,
    pub error: String,
    pub message: String,
    pub error_code: Option<String>,
    pub timestamp: String,
}

/// Relies on chrono's `Utc::now` and `DateTime::to_rfc3339`: the current
/// time as RFC 3339 text. Nothing is promised of the value.
#[verifier::external_body]
fn rfc3339_now() -> (r: String) {
    chrono::Utc::now().to_rfc3339()
}

impl AppError {
    /// Builds an error of kind `kind` with the given detail.
    pub fn new(kind: ErrorKind, detail: String) -> (r: AppError)
        ensures
            r@ == error_of(kind, detail@),
    {
        match kind {
            ErrorKind::NotFound => AppError::NotFound(detail),
            ErrorKind::ValidationError => AppError::ValidationError(detail),
            ErrorKind::DatabaseError => AppError::DatabaseError(detail),
            ErrorKind::InternalServerError => AppError::InternalServerError(detail),
            ErrorKind::InvalidObjectId => AppError::InvalidObjectId(detail),
            ErrorKind::SerializationError => AppError::SerializationError(detail),
            ErrorKind::IoError => AppError::IoError(detail),
        }
    }

    pub fn kind(&self) -> (r: ErrorKind)
        ensures
            r == self@.kind,
    {
        match self {
            AppError::NotFound(_) => ErrorKind::NotFound,
            AppError::ValidationError(_) => ErrorKind::ValidationError,
            AppError::DatabaseError(_) => ErrorKind::DatabaseError,
            AppError::InternalServerError(_) => ErrorKind::InternalServerError,
            AppError::InvalidObjectId(_) => ErrorKind::InvalidObjectId,
            AppError::SerializationError(_) => ErrorKind::SerializationError,
            AppError::IoError(_) => ErrorKind::IoError,
        }
    }

    /// The detail text.
    pub fn message(&self) -> (r: &String)
        ensures
            r@ == self@.detail,
    {
        match self {
            AppError::NotFound(m) => m,
            AppError::ValidationError(m) => m,
            AppError::DatabaseError(m) => m,
            AppError::InternalServerError(m) => m,
            AppError::InvalidObjectId(m) => m,
            AppError::SerializationError(m) => m,
            AppError::IoError(m) => m,
        }
    }

    /// The full description, such as `Not Found: Resource not found`.
    pub fn to_string(&self) -> (r: String)
        ensures
            r@ == described(self@),
    {
        let k = self.kind();
        let mut s = String::from_str(k.title());
        s.append(": ");
        s.append(self.message().as_str());
        s
    }

    /// HTTP status for this error.
    pub fn status_code(&self) -> (r: u16)
        ensures
            r == kind_status(self@.kind),
    {
        self.kind().status_code()
    }

    /// The error body, stamped with the given time text.
    pub fn error_response_at(&self, timestamp: String) -> (r: ErrorResponse)
        ensures
            r.status == kind_status(self@.kind),
            r.error@ == kind_name(self@.kind),
            r.message@ == self@.detail,
            r.error_code is Some,
            r.error_code->Some_0@ == kind_code(self@.kind),
            r.timestamp == timestamp,
    {
        let k = self.kind();
        ErrorResponse {
            status: k.status_code(),
            error: String::from_str(k.name()),
            message: self.message().clone(),
            error_code: Some(String::from_str(k.code())),
            timestamp,
        }
    }

    /// The error body, stamped with the current time.
    pub fn error_response(&self) -> (r: ErrorResponse)
        ensures
            r.status == kind_status(self@.kind),
            r.error@ == kind_name(self@.kind),
            r.message@ == self@.detail,
            r.error_code is Some,
            r.error_code->Some_0@ == kind_code(self@.kind),
    {
        let now = rfc3339_now();
        self.error_response_at(now)
    }
}

#[verifier::external_type_specification]
#[verifier::external_body]
pub struct ExMongoError(mongodb::error::Error);

#[verifier::external_type_specification]
#[verifier::external_body]
pub struct ExJsonError(serde_json::Error);

#[verifier::external_type_specification]
#[verifier::external_body]
pub struct ExIoError(std::io::Error);

/// Relies on the `Display` impl of mongodb's `Error`: its description.
#[verifier::external_body]
fn mongo_error_text(e: &mongodb::error::Error) -> String {
    e.to_string()
}

/// Relies on the `Display` impl of serde_json's `Error`: its description.
#[verifier::external_body]
fn json_error_text(e: &serde_json::Error) -> String {
    e.to_string()
}

/// Relies on the `Display` impl of std's `io::Error`: its description.
#[verifier::external_body]
fn io_error_text(e: &std::io::Error) -> String {
    e.to_string()
}

/// `prefix` followed by `text`, as an error of kind `kind`.
fn prefixed(kind: ErrorKind, prefix: &str, text: String) -> (r: AppError)
    ensures
        r@ == error_of(kind, prefix@ + text@),
{
    let mut m = String::from_str(prefix);
    m.append(text.as_str());
    AppError::new(kind, m)
}

impl From<mongodb::error::Error> for AppError {
    /// A driver failure is a database error.
    fn from(err: mongodb::error::Error) -> AppError {
        prefixed(ErrorKind::DatabaseError, "Database operation failed: ", mongo_error_text(&err))
    }
}

impl vstd::std_specs::convert::FromSpecImpl<mongodb::error::Error> for AppError {
    open spec fn obeys_from_spec() -> bool {
        false
    }

    open spec fn from_spec(v: mongodb::error::Error) -> AppError {
        AppError::DatabaseError(arbitrary())
    }
}

impl From<serde_json::Error> for AppError {
    /// A JSON failure is a serialization error.
    fn from(err: serde_json::Error) -> AppError {
        prefixed(ErrorKind::SerializationError, "Serialization failed: ", json_error_text(&err))
    }
}

impl vstd::std_specs::convert::FromSpecImpl<serde_json::Error> for AppError {
    open spec fn obeys_from_spec() -> bool {
        false
    }

    open spec fn from_spec(v: serde_json::Error) -> AppError {
        AppError::SerializationError(arbitrary())
    }
}

impl From<std::io::Error> for AppError {
    /// An I/O failure is an I/O error.
    fn from(err: std::io::Error) -> AppError {
        prefixed(ErrorKind::IoError, "IO operation failed: ", io_error_text(&err))
    }
}

impl vstd::std_specs::convert::FromSpecImpl<std::io::Error> for AppError {
    open spec fn obeys_from_spec() -> bool {
        false
    }

    open spec fn from_spec(v: std::io::Error) -> AppError {
        AppError::IoError(arbitrary())
    }
}

} // verus!

//! The gateway's error taxonomy.

use vstd::prelude::*;

verus! {

/// Why a credential was refused.
#[derive(Debug, Clone, Copy, PartialEq, Eq, Structural)]
pub enum AuthError {
    /// No `Authorization` header, or one without the bearer prefix.
    Missing,
    /// The token's structure, signature or claims do not hold.
    Invalid,
    /// The token's expiry lies in the past.
    Expired,
}

impl AuthError {
    /// The text that names the refusal.
    pub open spec fn reason_text(self) -> Seq<char> {
        match self {
            AuthError::Missing => "missing credential"@,
            AuthError::Invalid => "invalid credential"@,
            AuthError::Expired => "expired credential"@,
        }
    }

    /// The text that names the refusal.
    pub fn reason(&self) -> (text: String)
        ensures
            text@ == self.reason_text(),
    {
        match self {
            AuthError::Missing => String::from_str("missing credential"),
            AuthError::Invalid => String::from_str("invalid credential"),
            AuthError::Expired => String::from_str("expired credential"),
        }
    }
}

/// A backend's own status as a mathematical record.
pub struct StatusView {
    pub code: i32,
    pub message: Seq<char>,
}

/// The status with which a backend answered a failed call: its status code
/// and its message.
#[derive(Debug, Clone, PartialEq, Eq)]
pub struct BackendStatus {
    pub code: i32,
    pub message: String,
}

impl View for BackendStatus {
    type V = StatusView;

    open spec fn view(&self) -> StatusView {
        StatusView { code: self.code, message: self.message@ }
    }
}

/// The text with which `tonic` displays a status that has the given code and
/// message and neither details nor metadata.
pub uninterp spec fn status_display(code: int, message: Seq<char>) -> Seq<char>;

/// Trusted: the `Display` impl of `tonic::Status`, on the status that
/// `tonic::Status::new` makes of `tonic::Code::from_i32(code)` and `message`.
///
/// The contract claims only that the text depends on the code and the
/// message alone.
#[verifier::external_body]
fn display_status(code: i32, message: &str) -> (text: String)
    ensures
        text@ == status_display(code as int, message@),
{
    tonic::Status::new(tonic::Code::from_i32(code), message).to_string()
}

impl BackendStatus {
    /// The text that stands for this status in messages.
    pub open spec fn text(self) -> Seq<char> {
        status_display(self.code as int, self.message@)
    }

    /// Renders this status for messages.
    pub fn render(&self) -> (text: String)
        ensures
            text@ == self.text(),
    {
        display_status(self.code, self.message.as_str())
    }
}

/// An error of the gateway as a mathematical value.
pub enum ErrorView {
    Configuration { variable: Seq<char> },
    Connection { reason: Seq<char> },
    Credential(AuthError),
    BackendFailure { operation: Seq<char>, status: StatusView },
    Other { reason: Seq<char> },
}

/// An error of the gateway.
#[derive(Debug, Clone, PartialEq, Eq)]
pub enum Error {
    /// A required setting was absent at startup.
    Configuration { variable: String },
    /// A backend or the telemetry sink could not be reached.
    Connection { reason: String },
    /// A credential was refused.
    Credential(AuthError),
    /// A remote call returned an error status. `operation` names the call.
    BackendFailure { operation: String, status: BackendStatus },
    /// Any other failure, such as a malformed body.
    Other { reason: String },
}

impl View for Error {
    type V = ErrorView;

    open spec fn view(&self) -> ErrorView {
        match self {
            Error::Configuration { variable } => ErrorView::Configuration { variable: variable@ },
            Error::Connection { reason } => ErrorView::Connection { reason: reason@ },
            Error::Credential(cause) => ErrorView::Credential(*cause),
            Error::BackendFailure { operation, status } => ErrorView::BackendFailure {
                operation: operation@,
                status: status@,
            },
            Error::Other { reason } => ErrorView::Other { reason: reason@ },
        }
    }
}

impl From<AuthError> for Error {
    fn from(cause: AuthError) -> (error: Error) {
        Error::Credential(cause)
    }
}

impl vstd::std_specs::convert::FromSpecImpl<AuthError> for Error {
    open spec fn obeys_from_spec() -> bool {
        true
    }

    open spec fn from_spec(cause: AuthError) -> Error {
        Error::Credential(cause)
    }
}

impl ErrorView {
    /// The message that describes the error.
    pub open spec fn message(self) -> Seq<char> {
        match self {
            ErrorView::Configuration { variable } => "Can not parse variable: "@ + variable,
            ErrorView::Connection { reason } => reason,
            ErrorView::Credential(cause) => cause.reason_text(),
            ErrorView::BackendFailure { operation, status } => "gRPC failure "@ + operation,
            ErrorView::Other { reason } => reason,
        }
    }
}

/// The error of a remote call that failed: `operation` names the call,
/// `status` is what the backend answered.
pub open spec fn backend_failure(operation: Seq<char>, status: StatusView) -> ErrorView {
    ErrorView::BackendFailure { operation, status }
}

/// What a backend answered to a call, as a mathematical value.
pub open spec fn reply_view<T: View>(reply: Result<T, BackendStatus>) -> Result<T::V, StatusView> {
    match reply {
        Ok(answer) => Ok(answer@),
        Err(status) => Err(status@),
    }
}

/// What a proxy operation returned, as a mathematical value.
pub open spec fn outcome_view<T: View>(outcome: Result<T, Error>) -> Result<T::V, ErrorView> {
    match outcome {
        Ok(value) => Ok(value@),
        Err(error) => Err(error@),
    }
}

impl Error {
    /// The error of a remote call that failed.
    pub fn backend_failure(operation: String, status: BackendStatus) -> (error: Error)
        ensures
            error@ == backend_failure(operation@, status@),
    {
        Error::BackendFailure { operation, status }
    }

    /// The message that describes the error.
    pub fn message(&self) -> (text: String)
        ensures
            text@ == self@.message(),
    {
        match self {
            Error::Configuration { variable } => String::from_str("Can not parse variable: ").concat(
                variable.as_str(),
            ),
            Error::Connection { reason } => reason.clone(),
            Error::Credential(cause) => cause.reason(),
            Error::BackendFailure { operation, status } => String::from_str("gRPC failure ").concat(
                operation.as_str(),
            ),
            Error::Other { reason } => reason.clone(),
        }
    }
}

} // verus!

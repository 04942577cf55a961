//! Machine-readable error codes, their HTTP statuses, and error bodies.

use vstd::prelude::*;

verus! {

/// The error codes that the service answers with.
#[derive(PartialEq, Eq, Structural, Clone, Copy, Debug)]
pub enum ErrorCode {
    InvalidSourceType,
    InvalidPath,
    PayloadTooLarge,
    DockerUnavailable,
    WorkspaceNotFound,
    FileWriteFailed,
    DockerExecFailed,
    RateLimitExceeded,
}

/// The HTTP status that belongs to each error code.
pub open spec fn status_of(code: ErrorCode) -> u16 {
    match code {
        ErrorCode::InvalidSourceType => 400,
        ErrorCode::InvalidPath => 400,
        ErrorCode::PayloadTooLarge => 507,
        ErrorCode::DockerUnavailable => 503,
        ErrorCode::WorkspaceNotFound => 404,
        ErrorCode::FileWriteFailed => 500,
        ErrorCode::DockerExecFailed => 500,
        ErrorCode::RateLimitExceeded => 429,
    }
}

/// The wire name of each error code.
pub open spec fn name_of(code: ErrorCode) -> Seq<char> {
    match code {
        ErrorCode::InvalidSourceType => "INVALID_SOURCE_TYPE"@,
        ErrorCode::InvalidPath => "INVALID_PATH"@,
        ErrorCode::PayloadTooLarge => "PAYLOAD_TOO_LARGE"@,
        ErrorCode::DockerUnavailable => "DOCKER_UNAVAILABLE"@,
        ErrorCode::WorkspaceNotFound => "WORKSPACE_NOT_FOUND"@,
        ErrorCode::FileWriteFailed => "FILE_WRITE_FAILED"@,
        ErrorCode::DockerExecFailed => "DOCKER_EXEC_FAILED"@,
        ErrorCode::RateLimitExceeded => "RATE_LIMIT_EXCEEDED"@,
    }
}

impl ErrorCode {
    /// The HTTP status of this code.
    pub fn status(&self) -> (s: u16)
        ensures
            s == status_of(*self),
    {
        match self {
            ErrorCode::InvalidSourceType => 400,
            ErrorCode::InvalidPath => 400,
            ErrorCode::PayloadTooLarge => 507,
            ErrorCode::DockerUnavailable => 503,
            ErrorCode::WorkspaceNotFound => 404,
            ErrorCode::FileWriteFailed => 500,
            ErrorCode::DockerExecFailed => 500,
            ErrorCode::RateLimitExceeded => 429,
        }
    }

    /// The wire name of this code.
    pub fn name(&self) -> (s: String)
        ensures
            s@ == name_of(*self),
    {
        let s = match self {
            ErrorCode::InvalidSourceType => "INVALID_SOURCE_TYPE",
            ErrorCode::InvalidPath => "INVALID_PATH",
            ErrorCode::PayloadTooLarge => "PAYLOAD_TOO_LARGE",
            ErrorCode::DockerUnavailable => "DOCKER_UNAVAILABLE",
            ErrorCode::WorkspaceNotFound => "WORKSPACE_NOT_FOUND",
            ErrorCode::FileWriteFailed => "FILE_WRITE_FAILED",
            ErrorCode::DockerExecFailed => "DOCKER_EXEC_FAILED",
            ErrorCode::RateLimitExceeded => "RATE_LIMIT_EXCEEDED",
        };
        s.to_owned()
    }
}

/// The JSON body of every error answer.
pub struct ErrorResponse {
    pub success: bool,
    pub error_code: String,
    pub message: String,
}

/// An error answer: its code (which fixes the HTTP status) and its message.
pub struct ApiError {
    pub code: ErrorCode,
    pub message: String,
}

impl ApiError {
    /// The HTTP status of this answer.
    pub fn status(&self) -> (s: u16)
        ensures
            s == status_of(self.code),
    {
        self.code.status()
    }

    /// The JSON body of this answer.
    pub fn to_response(&self) -> (r: ErrorResponse)
        ensures
            !r.success,
            r.error_code@ == name_of(self.code),
            r.message@ == self.message@,
    {
        ErrorResponse { success: false, error_code: self.code.name(), message: self.message.clone() }
    }
}

/// Different codes have different wire names.
pub proof fn law_error_names_distinct(a: ErrorCode, b: ErrorCode)
    requires
        a != b,
    ensures
        name_of(a) != name_of(b),
{
    reveal_strlit("INVALID_SOURCE_TYPE");
    reveal_strlit("INVALID_PATH");
    reveal_strlit("PAYLOAD_TOO_LARGE");
    reveal_strlit("DOCKER_UNAVAILABLE");
    reveal_strlit("WORKSPACE_NOT_FOUND");
    reveal_strlit("FILE_WRITE_FAILED");
    reveal_strlit("DOCKER_EXEC_FAILED");
    reveal_strlit("RATE_LIMIT_EXCEEDED");
    assert(name_of(a).len() != name_of(b).len() || name_of(a)[0] != name_of(b)[0]
        || name_of(a)[1] != name_of(b)[1] || name_of(a)[8] != name_of(b)[8]);
}

/// Errors of the request (a bad source type or path, an unknown workspace,
/// too many requests) are answered with a 4xx status, the others with a 5xx
/// one; a payload over the limits gets 507, too many requests 429.
pub proof fn law_error_status_classes(code: ErrorCode)
    ensures
        400 <= status_of(code) < 600,
        (status_of(code) < 500) <==> (code == ErrorCode::InvalidSourceType || code
            == ErrorCode::InvalidPath || code == ErrorCode::WorkspaceNotFound || code
            == ErrorCode::RateLimitExceeded),
        code == ErrorCode::PayloadTooLarge ==> status_of(code) == 507,
        code == ErrorCode::RateLimitExceeded ==> status_of(code) == 429,
        code == ErrorCode::WorkspaceNotFound ==> status_of(code) == 404,
        code == ErrorCode::DockerUnavailable ==> status_of(code) == 503,
{
}

} // verus!

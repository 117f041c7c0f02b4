//! How a refusal is reported: a status and a body with one message.

use vstd::prelude::*;
use vstd::string::StringExecFns;

verus! {

/// The statuses that the service answers with.
#[derive(Clone, Copy, Debug, PartialEq, Eq, Structural, Hash)]
pub enum Status {
    Success,
    Created,
    NoContent,
    BadRequest,
    Unauthorized,
    Forbidden,
    Conflict,
    InternalServerError,
}

impl Status {
    /// The number of this status.
    pub open spec fn spec_code(self) -> u16 {
        match self {
            Status::Success => 200,
            Status::Created => 201,
            Status::NoContent => 204,
            Status::BadRequest => 400,
            Status::Unauthorized => 401,
            Status::Forbidden => 403,
            Status::Conflict => 409,
            Status::InternalServerError => 500,
        }
    }

    /// The number of this status.
    #[verifier::when_used_as_spec(spec_code)]
    pub fn code(self) -> (code: u16)
        ensures
            code == self.spec_code(),
    {
        match self {
            Status::Success => 200,
            Status::Created => 201,
            Status::NoContent => 204,
            Status::BadRequest => 400,
            Status::Unauthorized => 401,
            Status::Forbidden => 403,
            Status::Conflict => 409,
            Status::InternalServerError => 500,
        }
    }

    /// Whether this status reports a failure.
    pub open spec fn is_failure(self) -> bool {
        self.spec_code() >= 400
    }
}

/// A storage operation that did not complete. It carries no detail: what
/// went wrong is logged where it happened and never shown to a caller.
#[derive(Clone, Copy, Debug, PartialEq, Eq, Structural)]
pub struct StorageFailure;

/// The body of a refusal.
#[derive(Clone, Debug)]
pub struct ErrorResponse {
    pub error: String,
}

impl ErrorResponse {
    /// A refusal with the given status and message.
    pub fn new(status: Status, error: &str) -> (response: (Status, ErrorResponse))
        ensures
            response.0 == status,
            response.1.error@ == error@,
    {
        (status, ErrorResponse { error: String::from_str(error) })
    }

    /// The refusal for a failure inside the service.
    pub fn internal_error() -> (response: (Status, ErrorResponse))
        ensures
            response.0 == Status::InternalServerError,
            response.1.error@ == "Internal Server Error"@,
    {
        ErrorResponse::new(Status::InternalServerError, "Internal Server Error")
    }

    /// The refusal for a caller who is not authenticated.
    pub fn unauthorized() -> (response: (Status, ErrorResponse))
        ensures
            response.0 == Status::Unauthorized,
            response.1.error@ == "Unauthorized"@,
    {
        ErrorResponse::new(Status::Unauthorized, "Unauthorized")
    }
}

/// Whether an outcome is the refusal with the given status and message.
pub open spec fn refused<T>(
    outcome: Result<T, (Status, ErrorResponse)>,
    status: Status,
    message: Seq<char>,
) -> bool {
    outcome matches Err(refusal) && refusal.0 == status && refusal.1.error@ == message
}

/// Passes on what storage answered when asked to store a record; a record
/// that could not be stored is a failure of the service.
pub fn stored<T>(inserted: Result<T, StorageFailure>) -> (passed: Result<
    T,
    (Status, ErrorResponse),
>)
    ensures
        match inserted {
            Ok(value) => passed matches Ok(same) && same == value,
            Err(_) => refused(passed, Status::InternalServerError, "Internal server error"@),
        },
{
    match inserted {
        Ok(value) => Ok(value),
        Err(_) => Err(ErrorResponse::new(Status::InternalServerError, "Internal server error")),
    }
}

/// A caller who is not authenticated and a caller who lacks permission are
/// told apart: the two refusals differ in status, and both are failures.
pub proof fn law_refusals_differ()
    ensures
        Status::Unauthorized.spec_code() != Status::Forbidden.spec_code(),
        Status::Unauthorized.is_failure(),
        Status::Forbidden.is_failure(),
        Status::InternalServerError.is_failure(),
{
}

} // verus!

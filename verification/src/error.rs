//! The uniform machine-readable error body returned for every rejected or
//! failed request.

use vstd::prelude::*;

verus! {

/// Why a request failed to authenticate: a malformed `Authorization` header,
/// a backend that rejected the credentials, or a backend that could not be
/// reached. All three surface to the client as the same `401` response.
#[derive(Debug, Clone, PartialEq, Eq)]
pub enum AuthError {
    MalformedCredentials,
    AuthenticationRejected,
    ConnectionFailed,
}

/// The uniform error payload shape for all non-2xx responses.
///
/// `problem_type` carries the machine-readable discriminator that the wire
/// format emits under the key `"type"`.
pub struct ProblemDetails {
    pub problem_type: String,
    pub limit: Option<String>,
    pub status: u16,
    pub detail: String,
}

impl ProblemDetails {
    /// The body sent with every `401` produced by the authentication bridge.
    pub fn unauthorized() -> (r: ProblemDetails)
        ensures
            r.problem_type@ == "unauthorized"@,
            r.limit is None,
            r.status == 401,
            r.detail@ == "unauthorized"@,
    {
        ProblemDetails {
            problem_type: String::from_str("unauthorized"),
            limit: None,
            status: 401,
            detail: String::from_str("unauthorized"),
        }
    }

    /// The body wrapped around any error that reaches the outermost response
    /// stage with an otherwise-empty body, so no raw error reaches the client.
    pub fn unexpected_error(status: u16) -> (r: ProblemDetails)
        ensures
            r.problem_type@ == "unexpected error"@,
            r.limit is None,
            r.status == status,
            r.detail@ == "unexpected error"@,
    {
        ProblemDetails {
            problem_type: String::from_str("unexpected error"),
            limit: None,
            status,
            detail: String::from_str("unexpected error"),
        }
    }
}

} // verus!

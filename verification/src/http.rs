//! What every endpoint shares: the shape of an observed reply, the
//! classification of its status, and the bearer credential header.

use vstd::prelude::*;

verus! {

/// A response whose status code lies outside the 2xx range.
#[derive(Clone, Copy, Debug, PartialEq, Eq, Structural)]
pub struct HttpStatusError {
    /// The status code that the remote service answered with.
    pub status: u16,
}

/// Whether `status` is one of the success codes 200..=299.
pub open spec fn is_success(status: u16) -> bool {
    200 <= status <= 299
}

/// Whether a response with this status counts as a success.
pub fn status_is_success(status: u16) -> (ok: bool)
    ensures
        ok == is_success(status),
{
    200 <= status && status <= 299
}

/// Accepts a 2xx status and turns every other one into an error that
/// carries the observed code.
pub fn check_status(status: u16) -> (r: Result<(), HttpStatusError>)
    ensures
        is_success(status) <==> r is Ok,
        !is_success(status) ==> r == Err::<(), HttpStatusError>(HttpStatusError { status }),
{
    if status_is_success(status) {
        Ok(())
    } else {
        Err(HttpStatusError { status })
    }
}

/// What the caller observed after sending one request. `B` is the parsed
/// body; `body` is `None` when the bytes received did not parse into it.
#[derive(Clone, Debug, PartialEq, Eq)]
pub enum Reply<B> {
    /// No response arrived: the request could not be sent or the
    /// connection failed.
    Unreachable,
    /// A response arrived with this status.
    Answered { status: u16, body: Option<B> },
}

/// The name of the header that carries the bearer credential.
pub fn authorization_header_name() -> (name: &'static str)
    ensures
        name@ == "Authorization"@,
{
    "Authorization"
}

/// The value of the `Authorization` header for `token`.
pub open spec fn bearer_value(token: Seq<char>) -> Seq<char> {
    "Bearer "@ + token
}

/// Builds the `Authorization` header value that presents `token` as a
/// bearer credential.
pub fn bearer_header(token: &str) -> (value: String)
    ensures
        value@ == bearer_value(token@),
{
    let mut value = String::from_str("Bearer ");
    value.append(token);
    value
}

} // verus!

use vstd::prelude::*;

verus! {

/// How a request for a pooled connection ends when it cannot be served.
#[derive(Clone, Copy, Debug, PartialEq, Eq, Structural)]
pub enum GuardFailure {
    /// No pool is managed by the server at all.
    InternalServerError,
    /// The pool exists but handed out no connection.
    ServiceUnavailable,
}

impl GuardFailure {
    /// The HTTP status code that reports this failure.
    pub fn status_code(&self) -> (r: u16)
        ensures
            r == (match self {
                GuardFailure::InternalServerError => 500u16,
                GuardFailure::ServiceUnavailable => 503u16,
            }),
    {
        match self {
            GuardFailure::InternalServerError => 500,
            GuardFailure::ServiceUnavailable => 503,
        }
    }
}

/// Decides the connection a request handler gets. `pool` is `None` where the
/// server manages no pool, else what the pool answered when asked for a
/// connection. The connection is handed on; any failure stops the request.
pub fn guard_connection<C, E>(pool: Option<Result<C, E>>) -> (r: Result<C, GuardFailure>)
    ensures
        r == (match pool {
            None => Err(GuardFailure::InternalServerError),
            Some(Ok(c)) => Ok(c),
            Some(Err(_)) => Err(GuardFailure::ServiceUnavailable),
        }),
{
    match pool {
        None => Err(GuardFailure::InternalServerError),
        Some(Ok(c)) => Ok(c),
        Some(Err(_)) => Err(GuardFailure::ServiceUnavailable),
    }
}

} // verus!

use vstd::prelude::*;
use vstd::string::StringExecFns;

verus! {

/// One row of the users table: a unique email and the token that was issued for it.
#[derive(Debug)]
pub struct User {
    pub email: String,
    pub token: String,
}

/// A create was refused because a row with that email already exists.
#[derive(Clone, Copy, Debug, PartialEq, Eq, Structural)]
pub struct AlreadyExists;

/// Why a delete removed nothing.
#[derive(Clone, Debug, PartialEq, Eq)]
pub enum DeleteError {
    /// No row has the given email.
    NotFound,
    /// A row has the given email, but its token differs from the one supplied.
    Forbidden,
    /// The store failed to run the query; the text describes the failure.
    Query(String),
}

/// Text equality on string slices.
pub(crate) fn same_text(a: &str, b: &str) -> (r: bool)
    ensures
        r == (a@ == b@),
{
    let x = String::from_str(a);
    let y = String::from_str(b);
    x == y
}

} // verus!

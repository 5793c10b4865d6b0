use vstd::prelude::*;
use vstd::string::StringExecFns;

use crate::user::{AlreadyExists, DeleteError, User};

verus! {

/// The body that reports a created user.
pub open spec fn added_text(email: Seq<char>, token: Seq<char>) -> Seq<char> {
    "Added user [email: "@ + email + ", token: "@ + token + "]"@
}

/// The body that reports a create refused for a taken email.
pub open spec fn duplicate_text(email: Seq<char>) -> Seq<char> {
    "Error: cannot add '"@ + email + "', already created"@
}

/// The body that reports the outcome of a delete.
pub open spec fn removal_text(result: Result<usize, DeleteError>) -> Seq<char> {
    match result {
        Ok(n) => if n == 0 {
            "Not removed"@
        } else {
            "Bye"@
        },
        Err(DeleteError::NotFound) => "Not found"@,
        Err(DeleteError::Forbidden) => "Forbidden"@,
        Err(DeleteError::Query(s)) => s@,
    }
}

/// Each email of `users`, in order, each followed by a newline.
pub open spec fn email_lines(users: Seq<User>) -> Seq<char>
    decreases users.len(),
{
    if users.len() == 0 {
        Seq::empty()
    } else {
        email_lines(users.drop_last()) + users.last().email@ + "\n"@
    }
}

/// The body that reports a failed listing.
pub open spec fn list_error_text(details: Seq<char>) -> Seq<char> {
    "error "@ + details
}

/// The body that answers a create of `email`.
pub fn add_user_response(email: &str, result: &Result<User, AlreadyExists>) -> (r: String)
    ensures
        r@ == (match result {
            Ok(u) => added_text(u.email@, u.token@),
            Err(_) => duplicate_text(email@),
        }),
{
    match result {
        Ok(u) => {
            let mut s = String::from_str("Added user [email: ");
            s.append(u.email.as_str());
            s.append(", token: ");
            s.append(u.token.as_str());
            s.append("]");
            s
        },
        Err(_) => {
            let mut s = String::from_str("Error: cannot add '");
            s.append(email);
            s.append("', already created");
            s
        },
    }
}

/// The body that answers a delete.
pub fn remove_user_response(result: &Result<usize, DeleteError>) -> (r: String)
    ensures
        r@ == removal_text(*result),
{
    match result {
        Ok(n) => if *n == 0 {
            String::from_str("Not removed")
        } else {
            String::from_str("Bye")
        },
        Err(DeleteError::NotFound) => String::from_str("Not found"),
        Err(DeleteError::Forbidden) => String::from_str("Forbidden"),
        Err(DeleteError::Query(s)) => s.clone(),
    }
}

/// The body that answers a listing: one email per line, or the failure.
pub fn get_users_response(result: &Result<Vec<User>, String>) -> (r: String)
    ensures
        r@ == (match result {
            Ok(users) => email_lines(users@),
            Err(details) => list_error_text(details@),
        }),
{
    match result {
        Err(details) => {
            let mut s = String::from_str("error ");
            s.append(details.as_str());
            s
        },
        Ok(users) => {
            let mut s = String::new();
            let mut i: usize = 0;
            while i < users.len()
                invariant
                    i <= users@.len(),
                    s@ == email_lines(users@.subrange(0, i as int)),
                decreases users@.len() - i,
            {
                assert(users@.subrange(0, i + 1).drop_last() =~= users@.subrange(0, i as int));
                s.append(users[i].email.as_str());
                s.append("\n");
                i = i + 1;
            }
            assert(users@.subrange(0, users@.len() as int) =~= users@);
            s
        },
    }
}

} // verus!

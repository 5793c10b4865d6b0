use vstd::prelude::*;

use crate::render::email_lines;
use crate::repo::{after_create, after_delete, can_create, delete_result, lists_rows, Rows};
use crate::user::{DeleteError, User};

verus! {

/// A create of an email that no row holds succeeds and stores the issued token;
/// a second create of the same email is refused and changes nothing.
pub proof fn lemma_create_fresh_then_duplicate(m: Rows, email: Seq<char>, t1: Seq<char>, t2: Seq<char>)
    requires
        !m.contains_key(email),
    ensures
        can_create(m, email),
        after_create(m, email, t1) == m.insert(email, t1),
        after_create(m, email, t1)[email] == t1,
        !can_create(after_create(m, email, t1), email),
        after_create(after_create(m, email, t1), email, t2) == after_create(m, email, t1),
{
}

/// A delete with the token stored for the email removes exactly that one row,
/// after which the email can be created again.
pub proof fn lemma_delete_matching_removes_one(m: Rows, email: Seq<char>, token: Seq<char>)
    requires
        m.dom().finite(),
        m.contains_key(email),
        m[email] == token,
    ensures
        delete_result(m, email, token) == Ok::<usize, DeleteError>(1),
        after_delete(m, email, token) == m.remove(email),
        after_delete(m, email, token).dom().len() == m.dom().len() - 1,
        can_create(after_delete(m, email, token), email),
{
    assert(m.remove(email).dom() =~= m.dom().remove(email));
}

/// A delete of an email that no row holds reports it as not found; a delete with
/// a token other than the stored one is forbidden. Neither changes the table.
pub proof fn lemma_delete_refused_keeps_rows(m: Rows, email: Seq<char>, token: Seq<char>)
    ensures
        !m.contains_key(email) ==> delete_result(m, email, token) == Err::<usize, DeleteError>(
            DeleteError::NotFound,
        ),
        m.contains_key(email) && m[email] != token ==> delete_result(m, email, token) == Err::<
            usize,
            DeleteError,
        >(DeleteError::Forbidden),
        delete_result(m, email, token) is Err ==> after_delete(m, email, token) == m,
{
}

/// Creates of two distinct fresh emails both succeed, whichever runs first, and
/// leave the same table either way.
pub proof fn lemma_distinct_creates_commute(
    m: Rows,
    e1: Seq<char>,
    t1: Seq<char>,
    e2: Seq<char>,
    t2: Seq<char>,
)
    requires
        e1 != e2,
        can_create(m, e1),
        can_create(m, e2),
    ensures
        can_create(after_create(m, e1, t1), e2),
        can_create(after_create(m, e2, t2), e1),
        after_create(after_create(m, e1, t1), e2, t2) == after_create(after_create(m, e2, t2), e1, t1),
{
    assert(m.insert(e1, t1).insert(e2, t2) =~= m.insert(e2, t2).insert(e1, t1));
}

/// A listing of a table with no rows holds no user, and its body is empty.
pub proof fn lemma_empty_table_lists_nothing(users: Seq<User>)
    requires
        lists_rows(users, Rows::empty()),
    ensures
        users.len() == 0,
        email_lines(users) == Seq::<char>::empty(),
{
    if users.len() > 0 {
        assert(Rows::empty().contains_key(users[0].email@));
    }
}

} // verus!

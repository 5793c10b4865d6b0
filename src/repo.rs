use vstd::prelude::*;
use vstd::string::StringExecFns;

use crate::user::{same_text, AlreadyExists, DeleteError, User};

verus! {

/// The users table as a map from email to token.
pub type Rows = Map<Seq<char>, Seq<char>>;

/// A create of `email` succeeds exactly when no row holds that email.
pub open spec fn can_create(m: Rows, email: Seq<char>) -> bool {
    !m.contains_key(email)
}

/// The table after a create of `(email, token)`.
pub open spec fn after_create(m: Rows, email: Seq<char>, token: Seq<char>) -> Rows {
    if can_create(m, email) {
        m.insert(email, token)
    } else {
        m
    }
}

/// What a delete of `email` with `token` returns: the count of removed rows,
/// or why nothing was removed.
pub open spec fn delete_result(m: Rows, email: Seq<char>, token: Seq<char>) -> Result<usize, DeleteError> {
    if !m.contains_key(email) {
        Err(DeleteError::NotFound)
    } else if m[email] != token {
        Err(DeleteError::Forbidden)
    } else {
        Ok(1usize)
    }
}

/// The table after a delete of `email` with `token`.
pub open spec fn after_delete(m: Rows, email: Seq<char>, token: Seq<char>) -> Rows {
    if delete_result(m, email, token) is Ok {
        m.remove(email)
    } else {
        m
    }
}

/// `users` holds each row of `m` exactly once, and nothing else.
pub open spec fn lists_rows(users: Seq<User>, m: Rows) -> bool {
    &&& forall|i: int|
        0 <= i < users.len() ==> #[trigger] m.contains_key(users[i].email@) && m[users[i].email@]
            == users[i].token@
    &&& forall|e: Seq<char>| #[trigger]
        m.contains_key(e) ==> exists|i: int| 0 <= i < users.len() && users[i].email@ == e
    &&& forall|i: int, j: int|
        0 <= i < users.len() && 0 <= j < users.len() && i != j ==> users[i].email@
            != users[j].email@
}

/// Decides a delete from the token stored for the email (`None` where no row
/// holds it) and the token the caller supplied.
pub fn authorize_delete(stored: Option<&str>, token: &str) -> (r: Result<(), DeleteError>)
    ensures
        r == (match stored {
            None => Err(DeleteError::NotFound),
            Some(s) => if s@ == token@ {
                Ok(())
            } else {
                Err(DeleteError::Forbidden)
            },
        }),
{
    match stored {
        None => Err(DeleteError::NotFound),
        Some(s) => if same_text(s, token) {
            Ok(())
        } else {
            Err(DeleteError::Forbidden)
        },
    }
}

/// The users table held in memory: unique emails, each with its token.
pub struct UserTable {
    users: Vec<User>,
    rows: Ghost<Rows>,
}

impl View for UserTable {
    type V = Rows;

    closed spec fn view(&self) -> Rows {
        self.rows@
    }
}

impl UserTable {
    /// The rows kept in `users` are those of the view, each once.
    pub closed spec fn wf(&self) -> bool {
        lists_rows(self.users@, self.rows@)
    }

    /// An empty table.
    pub fn new() -> (r: UserTable)
        ensures
            r.wf(),
            r@ == Rows::empty(),
    {
        UserTable { users: Vec::new(), rows: Ghost(Map::empty()) }
    }

    /// The position of the row that holds `email`, if one does.
    fn find(&self, email: &str) -> (r: Option<usize>)
        requires
            self.wf(),
        ensures
            match r {
                Some(i) => i < self.users@.len() && self.users@[i as int].email@ == email@,
                None => !self@.contains_key(email@),
            },
    {
        let mut i: usize = 0;
        while i < self.users.len()
            invariant
                i <= self.users@.len(),
                forall|k: int| 0 <= k < i ==> self.users@[k].email@ != email@,
            decreases self.users@.len() - i,
        {
            if same_text(self.users[i].email.as_str(), email) {
                return Some(i);
            }
            i = i + 1;
        }
        None
    }

    /// Adds the row `(email, token)`, or refuses where `email` is taken.
    pub fn create_user(&mut self, email: &str, token: &str) -> (r: Result<User, AlreadyExists>)
        requires
            old(self).wf(),
        ensures
            final(self).wf(),
            r is Ok <==> can_create(old(self)@, email@),
            final(self)@ == after_create(old(self)@, email@, token@),
            r matches Ok(u) ==> u.email@ == email@ && u.token@ == token@,
    {
        match self.find(email) {
            Some(_) => Err(AlreadyExists),
            None => {
                let ghost old_users = self.users@;
                let ghost m = self.rows@;
                self.users.push(User { email: String::from_str(email), token: String::from_str(token) });
                self.rows = Ghost(m.insert(email@, token@));
                assert forall|e: Seq<char>| #[trigger] self.rows@.contains_key(e) implies exists|i: int|
                    0 <= i < self.users@.len() && self.users@[i].email@ == e by {
                    if e == email@ {
                        assert(self.users@[old_users.len() as int].email@ == e);
                    } else {
                        let i = choose|i: int| 0 <= i < old_users.len() && old_users[i].email@ == e;
                        assert(self.users@[i].email@ == e);
                    }
                }
                assert forall|i: int| 0 <= i < self.users@.len() implies #[trigger] self.rows@.contains_key(
                    self.users@[i].email@) && self.rows@[self.users@[i].email@] == self.users@[i].token@ by {
                    if i < old_users.len() {
                        assert(old_users[i] == self.users@[i]);
                        assert(m.contains_key(old_users[i].email@));
                    }
                }
                Ok(User { email: String::from_str(email), token: String::from_str(token) })
            },
        }
    }

    /// Removes the row of `email` where `token` is the one it holds.
    pub fn delete_user(&mut self, email: &str, token: &str) -> (r: Result<usize, DeleteError>)
        requires
            old(self).wf(),
        ensures
            final(self).wf(),
            r == delete_result(old(self)@, email@, token@),
            final(self)@ == after_delete(old(self)@, email@, token@),
    {
        let found = self.find(email);
        let stored = match found {
            Some(i) => Some(self.users[i].token.as_str()),
            None => None,
        };
        match authorize_delete(stored, token) {
            Err(e) => Err(e),
            Ok(()) => {
                let i = found.unwrap();
                let ghost old_users = self.users@;
                let ghost m = self.rows@;
                self.users.remove(i);
                self.rows = Ghost(m.remove(email@));
                assert forall|k: int| 0 <= k < self.users@.len() implies #[trigger] self.rows@.contains_key(
                    self.users@[k].email@) && self.rows@[self.users@[k].email@] == self.users@[k].token@ by {
                    let j = if k < i { k } else { k + 1 };
                    assert(self.users@[k] == old_users[j]);
                    assert(j != i);
                    assert(m.contains_key(old_users[j].email@));
                }
                assert forall|e: Seq<char>| #[trigger] self.rows@.contains_key(e) implies exists|k: int|
                    0 <= k < self.users@.len() && self.users@[k].email@ == e by {
                    let j = choose|j: int| 0 <= j < old_users.len() && old_users[j].email@ == e;
                    assert(j != i);
                    let k = if j < i { j } else { j - 1 };
                    assert(self.users@[k] == old_users[j]);
                }
                assert forall|a: int, b: int|
                    0 <= a < self.users@.len() && 0 <= b < self.users@.len() && a != b implies self.users@[a].email@
                        != self.users@[b].email@ by {
                    let ja = if a < i { a } else { a + 1 };
                    let jb = if b < i { b } else { b + 1 };
                    assert(self.users@[a] == old_users[ja]);
                    assert(self.users@[b] == old_users[jb]);
                }
                Ok(1)
            },
        }
    }

    /// Every row of the table, each once, in no promised order.
    pub fn get_all_users(&self) -> (r: Vec<User>)
        requires
            self.wf(),
        ensures
            lists_rows(r@, self@),
    {
        let mut out: Vec<User> = Vec::new();
        let mut i: usize = 0;
        while i < self.users.len()
            invariant
                i <= self.users@.len(),
                out@.len() == i,
                forall|k: int| 0 <= k < i ==> #[trigger] out@[k].email@ == self.users@[k].email@
                    && out@[k].token@ == self.users@[k].token@,
            decreases self.users@.len() - i,
        {
            let u = &self.users[i];
            out.push(User { email: u.email.clone(), token: u.token.clone() });
            i = i + 1;
        }
        assert forall|e: Seq<char>| #[trigger] self@.contains_key(e) implies exists|k: int|
            0 <= k < out@.len() && out@[k].email@ == e by {
            let k = choose|k: int| 0 <= k < self.users@.len() && self.users@[k].email@ == e;
            assert(out@[k].email@ == e);
        }
        out
    }
}

} // verus!

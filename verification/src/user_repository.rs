//! CRUD primitives for user records, each executed against a caller-supplied
//! execution context.
//!
//! No business validation happens here: the repository maps records to and
//! from the store exactly as given, and in particular accepts duplicate
//! usernames — uniqueness is the account service's concern.

use vstd::prelude::*;
use vstd::pervasive::VecAdditionalExecFns;

use crate::model::{User, UserView};
use crate::outcome::SystemError;
use crate::store::{
    contains_user_id, db_wf, first_user_with_email, first_user_with_username,
    lemma_first_email_skip_prefix, lemma_first_username_skip_prefix, user_by_id, user_index,
    username_taken, email_taken, with_user_id, Database, DatabaseView, QueryContext,
};

verus! {

impl Database {
    /// Append a user row, assigning it the next free id.
    pub fn insert_user_row(&mut self, user: &User) -> (id: u64)
        requires
            db_wf(old(self)@),
            old(self)@.next_user_id < u64::MAX,
        ensures
            db_wf(final(self)@),
            id == old(self)@.next_user_id,
            final(self)@ == (DatabaseView {
                users: old(self)@.users.push(with_user_id(user@, id)),
                next_user_id: (old(self)@.next_user_id + 1) as u64,
                ..old(self)@
            }),
    {
        let mut stored = user.duplicate();
        let id = self.users.next_id;
        stored.id = id;
        self.users.next_id = id + 1;
        let ghost prev = self.users.rows.deep_view();
        self.users.rows.push(stored);
        proof {
            assert(stored@ =~= with_user_id(user@, id));
            assert forall|k: int| 0 <= k < prev.len() + 1 implies #[trigger] self.users.rows.deep_view()[k]
                == prev.push(with_user_id(user@, id))[k] by {
                assert(self.users.rows.deep_view()[k] == self.users.rows@[k].deep_view());
            }
            assert(self.users.rows.deep_view() =~= prev.push(with_user_id(user@, id)));
            assert(self@ =~= (DatabaseView {
                users: old(self)@.users.push(with_user_id(user@, id)),
                next_user_id: (old(self)@.next_user_id + 1) as u64,
                ..old(self)@
            }));
        }
        id
    }

    /// Look a user row up by id.
    pub fn find_user_by_id(&self, id: u64) -> (r: Option<User>)
        requires
            db_wf(self@),
        ensures
            match r {
                Some(u) => user_by_id(self@.users, id) == Some(u@),
                None => user_by_id(self@.users, id) is None,
            },
    {
        let ghost dv = self@.users;
        let mut i: usize = 0;
        while i < self.users.rows.len()
            invariant
                i <= dv.len(),
                dv == self@.users,
                db_wf(self@),
                forall|j: int| 0 <= j < i ==> (#[trigger] dv[j]).id != id,
            decreases dv.len() - i,
        {
            if self.users.rows[i].id == id {
                let r = self.users.rows[i].duplicate();
                proof {
                    assert(dv[i as int].id == id);
                    assert(contains_user_id(dv, id));
                    let ci = user_index(dv, id);
                    assert(0 <= ci < dv.len() && dv[ci].id == id);
                    assert(ci == i);
                }
                return Some(r);
            }
            i = i + 1;
        }
        proof {
            assert(!contains_user_id(dv, id));
        }
        None
    }

    /// Look up the first user row with the given username, in insertion
    /// order.
    pub fn find_user_by_username(&self, username: &String) -> (r: Option<User>)
        ensures
            match r {
                Some(u) => username_taken(self@.users, username@) && first_user_with_username(
                    self@.users,
                    username@,
                ) == Some(u@),
                None => !username_taken(self@.users, username@) && first_user_with_username(
                    self@.users,
                    username@,
                ) is None,
            },
    {
        let ghost dv = self@.users;
        let mut i: usize = 0;
        while i < self.users.rows.len()
            invariant
                i <= dv.len(),
                dv == self@.users,
                forall|j: int| 0 <= j < i ==> (#[trigger] dv[j]).username != username@,
            decreases dv.len() - i,
        {
            if self.users.rows[i].username == *username {
                let r = self.users.rows[i].duplicate();
                proof {
                    lemma_first_username_skip_prefix(dv, username@, i as int);
                    let tail = dv.subrange(i as int, dv.len() as int);
                    assert(tail[0] == dv[i as int]);
                    assert(first_user_with_username(tail, username@) == Some(tail[0]));
                }
                return Some(r);
            }
            i = i + 1;
        }
        proof {
            lemma_first_username_skip_prefix(dv, username@, dv.len() as int);
        }
        None
    }

    /// Look up the first user row with the given email address, in
    /// insertion order.
    pub fn find_user_by_email(&self, email: &String) -> (r: Option<User>)
        ensures
            match r {
                Some(u) => email_taken(self@.users, email@) && first_user_with_email(
                    self@.users,
                    email@,
                ) == Some(u@),
                None => !email_taken(self@.users, email@) && first_user_with_email(
                    self@.users,
                    email@,
                ) is None,
            },
    {
        let ghost dv = self@.users;
        let mut i: usize = 0;
        while i < self.users.rows.len()
            invariant
                i <= dv.len(),
                dv == self@.users,
                forall|j: int| 0 <= j < i ==> (#[trigger] dv[j]).email != email@,
            decreases dv.len() - i,
        {
            if self.users.rows[i].email == *email {
                let r = self.users.rows[i].duplicate();
                proof {
                    lemma_first_email_skip_prefix(dv, email@, i as int);
                    let tail = dv.subrange(i as int, dv.len() as int);
                    assert(tail[0] == dv[i as int]);
                    assert(first_user_with_email(tail, email@) == Some(tail[0]));
                }
                return Some(r);
            }
            i = i + 1;
        }
        proof {
            lemma_first_email_skip_prefix(dv, email@, dv.len() as int);
        }
        None
    }

    /// Overwrite the user row whose id matches the given record, returning
    /// how many rows changed (0 or 1).
    pub fn update_user_row(&mut self, user: &User) -> (n: u64)
        requires
            db_wf(old(self)@),
        ensures
            db_wf(final(self)@),
            contains_user_id(old(self)@.users, user.id) ==> n == 1 && final(self)@
                == (DatabaseView {
                users: old(self)@.users.update(user_index(old(self)@.users, user.id), user@),
                ..old(self)@
            }),
            !contains_user_id(old(self)@.users, user.id) ==> n == 0 && final(self)@ == old(self)@,
    {
        let ghost dv = self@.users;
        let mut i: usize = 0;
        while i < self.users.rows.len()
            invariant
                i <= dv.len(),
                dv == self@.users,
                self@ == old(self)@,
                db_wf(self@),
                forall|j: int| 0 <= j < i ==> (#[trigger] dv[j]).id != user.id,
            decreases dv.len() - i,
        {
            if self.users.rows[i].id == user.id {
                let ghost prev = self@;
                self.users.rows.set(i, user.duplicate());
                proof {
                    assert(dv[i as int].id == user.id);
                    assert(contains_user_id(dv, user.id));
                    let ci = user_index(dv, user.id);
                    assert(0 <= ci < dv.len() && dv[ci].id == user.id);
                    assert(ci == i);
                    assert forall|k: int| 0 <= k < dv.len() implies #[trigger] self.users.rows.deep_view()[k]
                        == dv.update(i as int, user@)[k] by {
                        assert(self.users.rows.deep_view()[k] == self.users.rows@[k].deep_view());
                    }
                    assert(self.users.rows.deep_view() =~= dv.update(i as int, user@));
                    assert(self@ =~= (DatabaseView {
                        users: dv.update(i as int, user@),
                        ..prev
                    }));
                    assert forall|k: int| 0 <= k < self@.users.len() implies 1 <= (
                    #[trigger] self@.users[k]).id < self@.next_user_id by {
                        if k != i {
                            assert(dv[k].id == self@.users[k].id);
                        }
                    }
                    assert forall|a: int, b: int| 0 <= a < b < self@.users.len() implies (
                    #[trigger] self@.users[a]).id != (#[trigger] self@.users[b]).id by {
                        assert(self@.users[a].id == dv[a].id);
                        assert(self@.users[b].id == dv[b].id);
                    }
                }
                return 1;
            }
            i = i + 1;
        }
        proof {
            assert(!contains_user_id(dv, user.id));
        }
        0
    }

    /// Delete the user row with the given id, returning how many rows were
    /// removed (0 or 1).
    pub fn delete_user_row(&mut self, id: u64) -> (n: u64)
        requires
            db_wf(old(self)@),
        ensures
            db_wf(final(self)@),
            contains_user_id(old(self)@.users, id) ==> n == 1 && final(self)@ == (DatabaseView {
                users: old(self)@.users.remove(user_index(old(self)@.users, id)),
                ..old(self)@
            }),
            !contains_user_id(old(self)@.users, id) ==> n == 0 && final(self)@ == old(self)@,
    {
        let ghost dv = self@.users;
        let mut i: usize = 0;
        while i < self.users.rows.len()
            invariant
                i <= dv.len(),
                dv == self@.users,
                self@ == old(self)@,
                db_wf(self@),
                forall|j: int| 0 <= j < i ==> (#[trigger] dv[j]).id != id,
            decreases dv.len() - i,
        {
            if self.users.rows[i].id == id {
                let ghost prev = self@;
                self.users.rows.remove(i);
                proof {
                    assert(dv[i as int].id == id);
                    assert(contains_user_id(dv, id));
                    let ci = user_index(dv, id);
                    assert(0 <= ci < dv.len() && dv[ci].id == id);
                    assert(ci == i);
                    assert forall|k: int| 0 <= k < dv.len() - 1 implies #[trigger] self.users.rows.deep_view()[k]
                        == dv.remove(i as int)[k] by {
                        assert(self.users.rows.deep_view()[k] == self.users.rows@[k].deep_view());
                        if k < i {
                            assert(self.users.rows@[k].deep_view() == prev.users[k]);
                        }
                    }
                    assert(self.users.rows.deep_view() =~= dv.remove(i as int));
                    assert(self@ =~= (DatabaseView { users: dv.remove(i as int), ..prev }));
                    assert forall|k: int| 0 <= k < self@.users.len() implies 1 <= (
                    #[trigger] self@.users[k]).id < self@.next_user_id by {
                        if k < i {
                            assert(self@.users[k] == dv[k]);
                        } else {
                            assert(self@.users[k] == dv[k + 1]);
                        }
                    }
                    assert forall|a: int, b: int| 0 <= a < b < self@.users.len() implies (
                    #[trigger] self@.users[a]).id != (#[trigger] self@.users[b]).id by {
                        let oa: int = if a < i { a } else { a + 1 };
                        let ob: int = if b < i { b } else { b + 1 };
                        assert(self@.users[a] == dv[oa]);
                        assert(self@.users[b] == dv[ob]);
                    }
                }
                return 1;
            }
            i = i + 1;
        }
        proof {
            assert(!contains_user_id(dv, id));
        }
        0
    }
}

/// The persistence mapper for user records.  It holds no state of its own:
/// every operation runs against the context it is handed.
pub struct UserRepository;

impl UserRepository {
    /// Insert a user into the store, returning the assigned id.
    pub fn insert(&self, user: &User, context: &mut QueryContext) -> (r: Result<u64, SystemError>)
        requires
            old(context).wf(),
            old(context).working_view().next_user_id < u64::MAX,
        ensures
            final(context).wf(),
            QueryContext::same_frame(*old(context), *final(context)),
            r matches Ok(id) && id == old(context).working_view().next_user_id,
            final(context).working_view() == (DatabaseView {
                users: old(context).working_view().users.push(
                    with_user_id(user@, old(context).working_view().next_user_id),
                ),
                next_user_id: (old(context).working_view().next_user_id + 1) as u64,
                ..old(context).working_view()
            }),
    {
        match context {
            QueryContext::Connection(db) => Ok(db.insert_user_row(user)),
            QueryContext::Transaction { base: _, working } => Ok(working.insert_user_row(user)),
        }
    }

    /// Query a user from the store by id.
    pub fn get_by_id(&self, id: &u64, context: &mut QueryContext) -> (r: Result<
        Option<User>,
        SystemError,
    >)
        requires
            old(context).wf(),
        ensures
            *final(context) == *old(context),
            r matches Ok(opt) && match opt {
                Some(u) => user_by_id(old(context).working_view().users, *id) == Some(u@),
                None => user_by_id(old(context).working_view().users, *id) is None,
            },
    {
        match context {
            QueryContext::Connection(db) => Ok(db.find_user_by_id(*id)),
            QueryContext::Transaction { base: _, working } => Ok(working.find_user_by_id(*id)),
        }
    }

    /// Query a user from the store by username.
    pub fn get_by_username(&self, username: &String, context: &mut QueryContext) -> (r: Result<
        Option<User>,
        SystemError,
    >)
        ensures
            *final(context) == *old(context),
            r matches Ok(opt) && match opt {
                Some(u) => username_taken(old(context).working_view().users, username@)
                    && first_user_with_username(old(context).working_view().users, username@)
                    == Some(u@),
                None => !username_taken(old(context).working_view().users, username@)
                    && first_user_with_username(old(context).working_view().users, username@)
                    is None,
            },
    {
        match context {
            QueryContext::Connection(db) => Ok(db.find_user_by_username(username)),
            QueryContext::Transaction { base: _, working } => Ok(
                working.find_user_by_username(username),
            ),
        }
    }

    /// Query a user from the store by email address.
    pub fn get_by_email(&self, email: &String, context: &mut QueryContext) -> (r: Result<
        Option<User>,
        SystemError,
    >)
        ensures
            *final(context) == *old(context),
            r matches Ok(opt) && match opt {
                Some(u) => email_taken(old(context).working_view().users, email@)
                    && first_user_with_email(old(context).working_view().users, email@) == Some(
                    u@,
                ),
                None => !email_taken(old(context).working_view().users, email@)
                    && first_user_with_email(old(context).working_view().users, email@) is None,
            },
    {
        match context {
            QueryContext::Connection(db) => Ok(db.find_user_by_email(email)),
            QueryContext::Transaction { base: _, working } => Ok(working.find_user_by_email(email)),
        }
    }

    /// Overwrite the user row whose id matches the given record, returning
    /// how many rows changed.
    pub fn update(&self, user: &User, context: &mut QueryContext) -> (r: Result<u64, SystemError>)
        requires
            old(context).wf(),
        ensures
            final(context).wf(),
            QueryContext::same_frame(*old(context), *final(context)),
            contains_user_id(old(context).working_view().users, user.id) ==> (r matches Ok(n) && n
                == 1 && final(context).working_view() == (DatabaseView {
                users: old(context).working_view().users.update(
                    user_index(old(context).working_view().users, user.id),
                    user@,
                ),
                ..old(context).working_view()
            })),
            !contains_user_id(old(context).working_view().users, user.id) ==> (r matches Ok(n) && n
                == 0 && final(context).working_view() == old(context).working_view()),
    {
        match context {
            QueryContext::Connection(db) => Ok(db.update_user_row(user)),
            QueryContext::Transaction { base: _, working } => Ok(working.update_user_row(user)),
        }
    }

    /// Delete the user row with the given id, returning how many rows were
    /// removed.
    pub fn delete(&self, id: &u64, context: &mut QueryContext) -> (r: Result<u64, SystemError>)
        requires
            old(context).wf(),
        ensures
            final(context).wf(),
            QueryContext::same_frame(*old(context), *final(context)),
            contains_user_id(old(context).working_view().users, *id) ==> (r matches Ok(n) && n == 1
                && final(context).working_view() == (DatabaseView {
                users: old(context).working_view().users.remove(
                    user_index(old(context).working_view().users, *id),
                ),
                ..old(context).working_view()
            })),
            !contains_user_id(old(context).working_view().users, *id) ==> (r matches Ok(n) && n == 0
                && final(context).working_view() == old(context).working_view()),
    {
        match context {
            QueryContext::Connection(db) => Ok(db.delete_user_row(*id)),
            QueryContext::Transaction { base: _, working } => Ok(working.delete_user_row(*id)),
        }
    }
}

} // verus!

//! The in-memory relational store and the execution context that store
//! operations run in.
//!
//! `Database` holds one table per entity.  Every row carries a positive id
//! assigned from the table's `next_id` counter; well-formedness
//! ([`db_wf`]) says exactly that: ids are positive, below the counter, and
//! pairwise distinct.  Username or email uniqueness is deliberately *not* a
//! store invariant — it is enforced by the account service's
//! check-then-insert sequence, as the contracts there state.
//!
//! `QueryContext` wraps the database state a sequence of statements runs
//! against, in one of two modes: an autonomous connection, whose statements
//! are immediately durable, or an atomic transaction, whose statements
//! become durable only on commit and vanish on rollback.  A context must be
//! finished exactly once, through `commit_if_transaction`,
//! `rollback_if_transaction` or `release`; releasing an uncommitted
//! transaction rolls it back — it never silently commits.

use vstd::prelude::*;
use vstd::pervasive::VecAdditionalExecFns;

use crate::model::{File, FileView, User, UserView};
use crate::outcome::SystemError;

verus! {

/// The mathematical view of the whole store.
#[verifier::ext_equal]
pub ghost struct DatabaseView {
    pub users: Seq<UserView>,
    pub next_user_id: u64,
    pub files: Seq<FileView>,
    pub next_file_id: u64,
}

/// Well-formedness of a store state: each table's ids are positive, below
/// the table's id counter, and pairwise distinct.
pub open spec fn db_wf(db: DatabaseView) -> bool {
    &&& 1 <= db.next_user_id
    &&& 1 <= db.next_file_id
    &&& forall|i: int| 0 <= i < db.users.len() ==> 1 <= (#[trigger] db.users[i]).id < db.next_user_id
    &&& forall|i: int, j: int|
        0 <= i < j < db.users.len() ==> (#[trigger] db.users[i]).id != (#[trigger] db.users[j]).id
    &&& forall|i: int| 0 <= i < db.files.len() ==> 1 <= (#[trigger] db.files[i]).id < db.next_file_id
    &&& forall|i: int, j: int|
        0 <= i < j < db.files.len() ==> (#[trigger] db.files[i]).id != (#[trigger] db.files[j]).id
}

/// The same user view with its id replaced, as storage does on insertion.
pub open spec fn with_user_id(u: UserView, id: u64) -> UserView {
    UserView { id: id, ..u }
}

/// The same file view with its id replaced, as storage does on insertion.
pub open spec fn with_file_id(f: FileView, id: u64) -> FileView {
    FileView { id: id, ..f }
}

/// Whether some user row carries the given id.
pub open spec fn contains_user_id(users: Seq<UserView>, id: u64) -> bool {
    exists|i: int| 0 <= i < users.len() && (#[trigger] users[i]).id == id
}

/// The index of the user row with the given id (meaningful when the id is
/// present and ids are distinct).
pub open spec fn user_index(users: Seq<UserView>, id: u64) -> int {
    choose|i: int| 0 <= i < users.len() && (#[trigger] users[i]).id == id
}

/// The user row with the given id, if any.
pub open spec fn user_by_id(users: Seq<UserView>, id: u64) -> Option<UserView> {
    if contains_user_id(users, id) {
        Some(users[user_index(users, id)])
    } else {
        None
    }
}

/// Whether some user row carries the given username.
pub open spec fn username_taken(users: Seq<UserView>, username: Seq<char>) -> bool {
    exists|i: int| 0 <= i < users.len() && (#[trigger] users[i]).username == username
}

/// Whether some user row carries the given email address.
pub open spec fn email_taken(users: Seq<UserView>, email: Seq<char>) -> bool {
    exists|i: int| 0 <= i < users.len() && (#[trigger] users[i]).email == email
}

/// The first user row carrying the given username, in insertion order.
pub open spec fn first_user_with_username(users: Seq<UserView>, username: Seq<char>) -> Option<
    UserView,
>
    decreases users.len(),
{
    if users.len() == 0 {
        None
    } else if users[0].username == username {
        Some(users[0])
    } else {
        first_user_with_username(users.drop_first(), username)
    }
}

/// The first user row carrying the given email address, in insertion order.
pub open spec fn first_user_with_email(users: Seq<UserView>, email: Seq<char>) -> Option<UserView>
    decreases users.len(),
{
    if users.len() == 0 {
        None
    } else if users[0].email == email {
        Some(users[0])
    } else {
        first_user_with_email(users.drop_first(), email)
    }
}

/// Whether some file row carries the given id.
pub open spec fn contains_file_id(files: Seq<FileView>, id: u64) -> bool {
    exists|i: int| 0 <= i < files.len() && (#[trigger] files[i]).id == id
}

/// The index of the file row with the given id (meaningful when the id is
/// present and ids are distinct).
pub open spec fn file_index(files: Seq<FileView>, id: u64) -> int {
    choose|i: int| 0 <= i < files.len() && (#[trigger] files[i]).id == id
}

/// The file row with the given id, if any.
pub open spec fn file_by_id(files: Seq<FileView>, id: u64) -> Option<FileView> {
    if contains_file_id(files, id) {
        Some(files[file_index(files, id)])
    } else {
        None
    }
}

/// Skipping a matchless prefix does not change the first username match.
pub proof fn lemma_first_username_skip_prefix(users: Seq<UserView>, username: Seq<char>, i: int)
    requires
        0 <= i <= users.len(),
        forall|j: int| 0 <= j < i ==> (#[trigger] users[j]).username != username,
    ensures
        first_user_with_username(users, username) == first_user_with_username(
            users.subrange(i, users.len() as int),
            username,
        ),
    decreases i,
{
    if i > 0 {
        lemma_first_username_skip_prefix(users, username, i - 1);
        let tail = users.subrange(i - 1, users.len() as int);
        assert(tail[0] == users[i - 1]);
        assert(tail.drop_first() =~= users.subrange(i, users.len() as int));
    } else {
        assert(users.subrange(0, users.len() as int) =~= users);
    }
}

/// Skipping a matchless prefix does not change the first email match.
pub proof fn lemma_first_email_skip_prefix(users: Seq<UserView>, email: Seq<char>, i: int)
    requires
        0 <= i <= users.len(),
        forall|j: int| 0 <= j < i ==> (#[trigger] users[j]).email != email,
    ensures
        first_user_with_email(users, email) == first_user_with_email(
            users.subrange(i, users.len() as int),
            email,
        ),
    decreases i,
{
    if i > 0 {
        lemma_first_email_skip_prefix(users, email, i - 1);
        let tail = users.subrange(i - 1, users.len() as int);
        assert(tail[0] == users[i - 1]);
        assert(tail.drop_first() =~= users.subrange(i, users.len() as int));
    } else {
        assert(users.subrange(0, users.len() as int) =~= users);
    }
}

/// The user table: rows plus the id counter for the next insertion.
pub struct UserTable {
    pub rows: Vec<User>,
    pub next_id: u64,
}

/// The file table: rows plus the id counter for the next insertion.
pub struct FileTable {
    pub rows: Vec<File>,
    pub next_id: u64,
}

/// The in-memory relational store: one table per entity.
pub struct Database {
    pub users: UserTable,
    pub files: FileTable,
}

impl View for Database {
    type V = DatabaseView;

    open spec fn view(&self) -> DatabaseView {
        DatabaseView {
            users: self.users.rows.deep_view(),
            next_user_id: self.users.next_id,
            files: self.files.rows.deep_view(),
            next_file_id: self.files.next_id,
        }
    }
}

impl Database {
    /// An empty store.
    pub fn new() -> (r: Database)
        ensures
            db_wf(r@),
            r@.users == Seq::<UserView>::empty(),
            r@.files == Seq::<FileView>::empty(),
            r@.next_user_id == 1,
            r@.next_file_id == 1,
    {
        let r = Database {
            users: UserTable { rows: Vec::new(), next_id: 1 },
            files: FileTable { rows: Vec::new(), next_id: 1 },
        };
        proof {
            assert(r@.users =~= Seq::<UserView>::empty());
            assert(r@.files =~= Seq::<FileView>::empty());
        }
        r
    }

    /// An exact deep copy of the store state.
    pub fn duplicate(&self) -> (r: Database)
        ensures
            r@ == self@,
    {
        let mut users: Vec<User> = Vec::new();
        let mut i: usize = 0;
        while i < self.users.rows.len()
            invariant
                i <= self.users.rows@.len(),
                users@.len() == i,
                forall|k: int|
                    0 <= k < i ==> #[trigger] users.deep_view()[k]
                        == self.users.rows.deep_view()[k],
            decreases self.users.rows@.len() - i,
        {
            let ghost prev = users.deep_view();
            users.push(self.users.rows[i].duplicate());
            proof {
                assert forall|k: int| 0 <= k < i + 1 implies #[trigger] users.deep_view()[k]
                    == self.users.rows.deep_view()[k] by {
                    assert(users.deep_view()[k] == users@[k].deep_view());
                    if k < i {
                        assert(users@[k].deep_view() == prev[k]);
                    }
                }
            }
            i = i + 1;
        }
        let mut files: Vec<File> = Vec::new();
        let mut j: usize = 0;
        while j < self.files.rows.len()
            invariant
                j <= self.files.rows@.len(),
                files@.len() == j,
                forall|k: int|
                    0 <= k < j ==> #[trigger] files.deep_view()[k]
                        == self.files.rows.deep_view()[k],
            decreases self.files.rows@.len() - j,
        {
            let ghost prev = files.deep_view();
            files.push(self.files.rows[j].duplicate());
            proof {
                assert forall|k: int| 0 <= k < j + 1 implies #[trigger] files.deep_view()[k]
                    == self.files.rows.deep_view()[k] by {
                    assert(files.deep_view()[k] == files@[k].deep_view());
                    if k < j {
                        assert(files@[k].deep_view() == prev[k]);
                    }
                }
            }
            j = j + 1;
        }
        let r = Database {
            users: UserTable { rows: users, next_id: self.users.next_id },
            files: FileTable { rows: files, next_id: self.files.next_id },
        };
        proof {
            assert(r.users.rows.deep_view() =~= self.users.rows.deep_view());
            assert(r.files.rows.deep_view() =~= self.files.rows.deep_view());
            assert(r@ =~= self@);
        }
        r
    }
}

/// The context a sequence of store statements executes in: either an
/// autonomous connection or an open transaction.
pub enum QueryContext {
    /// An autonomous connection: every statement is immediately durable.
    Connection(Database),
    /// An open transaction: `working` is the state the transaction's
    /// statements see; `base` is the durable state the store reverts to on
    /// rollback.
    Transaction { base: Database, working: Database },
}

impl QueryContext {
    /// Whether this context is backed by an open transaction.
    pub open spec fn is_transaction(self) -> bool {
        match self {
            QueryContext::Connection(_) => false,
            QueryContext::Transaction { .. } => true,
        }
    }

    /// The state this context's statements currently see.
    pub open spec fn working_view(self) -> DatabaseView {
        match self {
            QueryContext::Connection(db) => db@,
            QueryContext::Transaction { working, .. } => working@,
        }
    }

    /// The state the store holds if this context ends without a commit: a
    /// connection's statements are already durable, an uncommitted
    /// transaction reverts to its base.
    pub open spec fn rollback_view(self) -> DatabaseView {
        match self {
            QueryContext::Connection(db) => db@,
            QueryContext::Transaction { base, .. } => base@,
        }
    }

    /// Well-formedness of the states this context carries.
    pub open spec fn wf(self) -> bool {
        db_wf(self.working_view()) && db_wf(self.rollback_view())
    }

    /// Frame preservation across a store operation: the operation may not
    /// change the kind of the context, nor the rollback state of an open
    /// transaction.
    pub open spec fn same_frame(pre: QueryContext, post: QueryContext) -> bool {
        &&& post.is_transaction() == pre.is_transaction()
        &&& pre.is_transaction() ==> post.rollback_view() == pre.rollback_view()
    }

    /// Begin an autonomous single-connection context on the store.
    pub fn begin_connection(store: &Database) -> (ctx: QueryContext)
        requires
            db_wf(store@),
        ensures
            !ctx.is_transaction(),
            ctx.working_view() == store@,
            ctx.wf(),
    {
        QueryContext::Connection(store.duplicate())
    }

    /// Begin an atomic transaction context on the store.
    pub fn begin_transaction(store: &Database) -> (ctx: QueryContext)
        requires
            db_wf(store@),
        ensures
            ctx.is_transaction(),
            ctx.working_view() == store@,
            ctx.rollback_view() == store@,
            ctx.wf(),
    {
        QueryContext::Transaction { base: store.duplicate(), working: store.duplicate() }
    }

    /// If the context is a transaction, make its changes durable; for a
    /// connection this is a no-op, as its statements were durable already.
    /// In this in-memory store, completion itself cannot fail.
    pub fn commit_if_transaction(self, store: &mut Database) -> (r: Result<(), SystemError>)
        ensures
            r is Ok,
            final(store)@ == self.working_view(),
    {
        match self {
            QueryContext::Connection(db) => {
                *store = db;
            },
            QueryContext::Transaction { base: _, working } => {
                *store = working;
            },
        }
        Ok(())
    }

    /// If the context is a transaction, discard its changes; for a
    /// connection this is a no-op, as its statements were durable already.
    /// In this in-memory store, completion itself cannot fail.
    pub fn rollback_if_transaction(self, store: &mut Database) -> (r: Result<(), SystemError>)
        ensures
            r is Ok,
            final(store)@ == self.rollback_view(),
    {
        match self {
            QueryContext::Connection(db) => {
                *store = db;
            },
            QueryContext::Transaction { base, working: _ } => {
                *store = base;
            },
        }
        Ok(())
    }

    /// End the context without an explicit completion, as dropping it would:
    /// a connection's statements stay durable, an uncommitted transaction
    /// rolls back.
    pub fn release(self, store: &mut Database)
        ensures
            final(store)@ == self.rollback_view(),
    {
        match self {
            QueryContext::Connection(db) => {
                *store = db;
            },
            QueryContext::Transaction { base, working: _ } => {
                *store = base;
            },
        }
    }
}

} // verus!

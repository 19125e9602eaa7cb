//! The entity records that the store persists: user accounts, the files they
//! own, and the claims carried by a bearer token.
//!
//! Each record has a mathematical view (`UserView`, `FileView`) over which
//! every contract in the library is stated; strings are viewed as character
//! sequences and timestamps as whole-second Unix timestamps (`i64`), which
//! matches the second-granularity comparisons the backend performs on them.

use vstd::prelude::*;

verus! {

/// The mathematical view of a user account record.
#[verifier::ext_equal]
pub ghost struct UserView {
    pub id: u64,
    pub account_created_at: i64,
    pub password_reset_at: i64,
    pub profile_picture_url: Seq<char>,
    pub username: Seq<char>,
    pub password: Seq<char>,
    pub email: Seq<char>,
    pub email_is_verified: bool,
    pub password_reset_is_required: bool,
    pub account_is_locked: bool,
    pub account_is_banned: bool,
}

/// Equality of two user views in every field except `id` and `password`,
/// the two fields that insertion rewrites (storage assigns the id and the
/// service replaces the plain-text password with its hash).
pub open spec fn same_user_except_id_password(a: UserView, b: UserView) -> bool {
    &&& a.account_created_at == b.account_created_at
    &&& a.password_reset_at == b.password_reset_at
    &&& a.profile_picture_url == b.profile_picture_url
    &&& a.username == b.username
    &&& a.email == b.email
    &&& a.email_is_verified == b.email_is_verified
    &&& a.password_reset_is_required == b.password_reset_is_required
    &&& a.account_is_locked == b.account_is_locked
    &&& a.account_is_banned == b.account_is_banned
}

/// A user account record.
///
/// An `id` of 0 means "not yet assigned"; storage assigns a positive id on
/// insertion.  `password` holds the salted hash of the user's password once
/// the record has passed through the account service; it holds plain text
/// only on the way into `insert` or `update`.  `password_reset_at` advances
/// on every password change and doubles as the token-revocation epoch.
#[derive(Clone, Debug)]
pub struct User {
    /// The user's unique identifier (0 = unassigned).
    pub id: u64,
    /// When the account was created (Unix seconds, UTC).
    pub account_created_at: i64,
    /// When the password was last reset (Unix seconds, UTC).
    pub password_reset_at: i64,
    /// A url to the user's profile picture.
    pub profile_picture_url: String,
    /// The user's unique username.
    pub username: String,
    /// The user's password: a salted hash in stored records.
    pub password: String,
    /// The user's unique email address.
    pub email: String,
    /// Whether the user has verified their email address.
    pub email_is_verified: bool,
    /// Whether the user must reset their password before logging in.
    pub password_reset_is_required: bool,
    /// Whether the account has been locked.
    pub account_is_locked: bool,
    /// Whether the account has been banned.
    pub account_is_banned: bool,
}

impl View for User {
    type V = UserView;

    open spec fn view(&self) -> UserView {
        UserView {
            id: self.id,
            account_created_at: self.account_created_at,
            password_reset_at: self.password_reset_at,
            profile_picture_url: self.profile_picture_url@,
            username: self.username@,
            password: self.password@,
            email: self.email@,
            email_is_verified: self.email_is_verified,
            password_reset_is_required: self.password_reset_is_required,
            account_is_locked: self.account_is_locked,
            account_is_banned: self.account_is_banned,
        }
    }
}

impl DeepView for User {
    type V = UserView;

    open spec fn deep_view(&self) -> UserView {
        self@
    }
}

impl User {
    /// An exact deep copy of the record.
    pub fn duplicate(&self) -> (r: User)
        ensures
            r@ == self@,
    {
        let r = User {
            id: self.id,
            account_created_at: self.account_created_at,
            password_reset_at: self.password_reset_at,
            profile_picture_url: self.profile_picture_url.clone(),
            username: self.username.clone(),
            password: self.password.clone(),
            email: self.email.clone(),
            email_is_verified: self.email_is_verified,
            password_reset_is_required: self.password_reset_is_required,
            account_is_locked: self.account_is_locked,
            account_is_banned: self.account_is_banned,
        };
        proof {
            assert(r@ =~= self@);
        }
        r
    }
}

impl Default for User {
    /// A fresh unassigned account: id 0, both timestamps read from the
    /// clock, every text field empty and every flag clear.
    fn default() -> (r: User)
        ensures
            r@.id == 0,
            r@.profile_picture_url == Seq::<char>::empty(),
            r@.username == Seq::<char>::empty(),
            r@.password == Seq::<char>::empty(),
            r@.email == Seq::<char>::empty(),
            !r@.email_is_verified,
            !r@.password_reset_is_required,
            !r@.account_is_locked,
            !r@.account_is_banned,
    {
        User {
            id: 0,
            account_created_at: crate::util::now_unix(),
            password_reset_at: crate::util::now_unix(),
            profile_picture_url: String::new(),
            username: String::new(),
            password: String::new(),
            email: String::new(),
            email_is_verified: false,
            password_reset_is_required: false,
            account_is_locked: false,
            account_is_banned: false,
        }
    }
}

impl PartialEq for User {
    fn eq(&self, other: &Self) -> (r: bool) {
        let r = self.id == other.id
            && self.account_created_at == other.account_created_at
            && self.password_reset_at == other.password_reset_at
            && self.profile_picture_url == other.profile_picture_url
            && self.username == other.username
            && self.password == other.password
            && self.email == other.email
            && self.email_is_verified == other.email_is_verified
            && self.password_reset_is_required == other.password_reset_is_required
            && self.account_is_locked == other.account_is_locked
            && self.account_is_banned == other.account_is_banned;
        proof {
            if r {
                assert(self@ =~= other@);
            }
        }
        r
    }
}

impl vstd::std_specs::cmp::PartialEqSpecImpl for User {
    open spec fn obeys_eq_spec() -> bool {
        true
    }

    open spec fn eq_spec(&self, other: &Self) -> bool {
        self@ == other@
    }
}

/// The mathematical view of a file record.
#[verifier::ext_equal]
pub ghost struct FileView {
    pub id: u64,
    pub user_id: u64,
    pub file_created_at: i64,
    pub mime_type: Seq<char>,
    pub name: Seq<char>,
    pub data: Seq<u8>,
}

/// A file record owned by a user account.
#[derive(Clone, Debug)]
pub struct File {
    /// The file's unique identifier (0 = unassigned).
    pub id: u64,
    /// The id of the user account that owns the file.
    pub user_id: u64,
    /// When the file was created (Unix seconds, UTC).
    pub file_created_at: i64,
    /// The file's mime type.
    pub mime_type: String,
    /// The file's name.
    pub name: String,
    /// The file's raw data.
    pub data: Vec<u8>,
}

impl View for File {
    type V = FileView;

    open spec fn view(&self) -> FileView {
        FileView {
            id: self.id,
            user_id: self.user_id,
            file_created_at: self.file_created_at,
            mime_type: self.mime_type@,
            name: self.name@,
            data: self.data@,
        }
    }
}

impl DeepView for File {
    type V = FileView;

    open spec fn deep_view(&self) -> FileView {
        self@
    }
}

impl File {
    /// An exact deep copy of the record.
    pub fn duplicate(&self) -> (r: File)
        ensures
            r@ == self@,
    {
        let mut data: Vec<u8> = Vec::new();
        let mut i: usize = 0;
        while i < self.data.len()
            invariant
                i <= self.data@.len(),
                data@ == self.data@.subrange(0, i as int),
            decreases self.data@.len() - i,
        {
            data.push(self.data[i]);
            i = i + 1;
        }
        let r = File {
            id: self.id,
            user_id: self.user_id,
            file_created_at: self.file_created_at,
            mime_type: self.mime_type.clone(),
            name: self.name.clone(),
            data,
        };
        proof {
            assert(r.data@ =~= self.data@);
            assert(r@ =~= self@);
        }
        r
    }
}

impl Default for File {
    /// A fresh unassigned file: id 0, no owner, the creation timestamp
    /// read from the clock, and empty fields.
    fn default() -> (r: File)
        ensures
            r@.id == 0,
            r@.user_id == 0,
            r@.mime_type == Seq::<char>::empty(),
            r@.name == Seq::<char>::empty(),
            r@.data == Seq::<u8>::empty(),
    {
        File {
            id: 0,
            user_id: 0,
            file_created_at: crate::util::now_unix(),
            mime_type: String::new(),
            name: String::new(),
            data: Vec::new(),
        }
    }
}

impl PartialEq for File {
    fn eq(&self, other: &Self) -> (r: bool) {
        if !(self.id == other.id
            && self.user_id == other.user_id
            && self.file_created_at == other.file_created_at
            && self.mime_type == other.mime_type
            && self.name == other.name
            && self.data.len() == other.data.len())
        {
            return false;
        }
        let mut i: usize = 0;
        while i < self.data.len()
            invariant
                i <= self.data@.len(),
                self.data@.len() == other.data@.len(),
                self.id == other.id,
                self.user_id == other.user_id,
                self.file_created_at == other.file_created_at,
                self.mime_type@ == other.mime_type@,
                self.name@ == other.name@,
                forall|j: int| 0 <= j < i ==> self.data@[j] == other.data@[j],
            decreases self.data@.len() - i,
        {
            if self.data[i] != other.data[i] {
                return false;
            }
            i = i + 1;
        }
        proof {
            assert(self.data@ =~= other.data@);
            assert(self@ =~= other@);
        }
        true
    }
}

impl vstd::std_specs::cmp::PartialEqSpecImpl for File {
    open spec fn obeys_eq_spec() -> bool {
        true
    }

    open spec fn eq_spec(&self, other: &Self) -> bool {
        self@ == other@
    }
}

/// The claims carried by a bearer token.
#[derive(Clone, Copy, PartialEq, Eq, Structural, Debug)]
pub struct UserClaims {
    /// The id of the user the token belongs to.
    pub id: u64,
    /// When the token expires (Unix seconds, UTC).
    pub exp: i64,
    /// When the token was issued (Unix seconds, UTC).
    pub iat: i64,
    /// The owner's password-reset timestamp captured at issuance.  The token
    /// is honoured only while this still equals the stored record's value.
    pub password_last_reset: i64,
}

} // verus!

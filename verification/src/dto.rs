//! The request and response body shapes of the transport layer, and their
//! conversions to and from the entity records.
//!
//! The transport layer itself (routing, serialization) lives outside this
//! library; what is verified here is the data logic those bodies carry:
//! building a fresh record from a creation request, patching a record with
//! the provided fields of an update request, and projecting a record into
//! a response.

use vstd::prelude::*;

use crate::model::{File, FileView, User, UserView};

verus! {

/// The field value an optional patch leaves behind: the patch value if one
/// was provided, the current value otherwise.
pub open spec fn patched_text(patch: Option<String>, current: Seq<char>) -> Seq<char> {
    match patch {
        Some(text) => text@,
        None => current,
    }
}

/// The payload an optional patch leaves behind.
pub open spec fn patched_data(patch: Option<Vec<u8>>, current: Seq<u8>) -> Seq<u8> {
    match patch {
        Some(data) => data@,
        None => current,
    }
}

/// The body of a request to create a user account.
pub struct CreateUserRequestBody {
    /// The requested username.
    pub username: String,
    /// The plain-text password.
    pub password: String,
    /// The email address.
    pub email: String,
}

impl CreateUserRequestBody {
    /// Build the unassigned account record this request describes, created
    /// at the given moment: id 0, both timestamps at `now`, no profile
    /// picture, and every flag clear.
    pub fn into_user(self, now: i64) -> (r: User)
        ensures
            r@ == (UserView {
                id: 0,
                account_created_at: now,
                password_reset_at: now,
                profile_picture_url: Seq::<char>::empty(),
                username: self.username@,
                password: self.password@,
                email: self.email@,
                email_is_verified: false,
                password_reset_is_required: false,
                account_is_locked: false,
                account_is_banned: false,
            }),
    {
        let r = User {
            id: 0,
            account_created_at: now,
            password_reset_at: now,
            profile_picture_url: String::new(),
            username: self.username,
            password: self.password,
            email: self.email,
            email_is_verified: false,
            password_reset_is_required: false,
            account_is_locked: false,
            account_is_banned: false,
        };
        proof {
            assert(r@ =~= (UserView {
                id: 0,
                account_created_at: now,
                password_reset_at: now,
                profile_picture_url: Seq::<char>::empty(),
                username: self.username@,
                password: self.password@,
                email: self.email@,
                email_is_verified: false,
                password_reset_is_required: false,
                account_is_locked: false,
                account_is_banned: false,
            }));
        }
        r
    }
}

/// The body of a request to update a user account: only the provided
/// fields change.
pub struct UpdateUserRequestBody {
    /// A new profile picture url, if it is being changed.
    pub profile_picture_url: Option<String>,
    /// A new username, if it is being changed.
    pub username: Option<String>,
    /// A new plain-text password, if it is being changed.
    pub password: Option<String>,
    /// A new email address, if it is being changed.
    pub email: Option<String>,
}

impl UpdateUserRequestBody {
    /// Apply the provided fields to an account record, leaving every other
    /// field as it was.
    pub fn apply(&self, user: &mut User)
        ensures
            final(user)@ == (UserView {
                profile_picture_url: patched_text(
                    self.profile_picture_url,
                    old(user)@.profile_picture_url,
                ),
                username: patched_text(self.username, old(user)@.username),
                password: patched_text(self.password, old(user)@.password),
                email: patched_text(self.email, old(user)@.email),
                ..old(user)@
            }),
    {
        match &self.profile_picture_url {
            Some(profile_picture_url) => {
                user.profile_picture_url = profile_picture_url.clone();
            },
            None => {},
        }
        match &self.username {
            Some(username) => {
                user.username = username.clone();
            },
            None => {},
        }
        match &self.password {
            Some(password) => {
                user.password = password.clone();
            },
            None => {},
        }
        match &self.email {
            Some(email) => {
                user.email = email.clone();
            },
            None => {},
        }
        proof {
            assert(user@ =~= (UserView {
                profile_picture_url: patched_text(
                    self.profile_picture_url,
                    old(user)@.profile_picture_url,
                ),
                username: patched_text(self.username, old(user)@.username),
                password: patched_text(self.password, old(user)@.password),
                email: patched_text(self.email, old(user)@.email),
                ..old(user)@
            }));
        }
    }
}

/// The body of a response describing a user account: the public fields
/// only — no secret, no email, no flags.
pub struct GetUserResponseBody {
    /// The account's unique identifier.
    pub id: u64,
    /// When the account was created (Unix seconds, UTC).
    pub account_created_at: i64,
    /// A url to the account's profile picture.
    pub profile_picture_url: String,
    /// The account's username.
    pub username: String,
}

impl GetUserResponseBody {
    /// Project an account record into its public response shape.
    pub fn from_user(user: User) -> (r: GetUserResponseBody)
        ensures
            r.id == user.id,
            r.account_created_at == user.account_created_at,
            r.profile_picture_url@ == user@.profile_picture_url,
            r.username@ == user@.username,
    {
        GetUserResponseBody {
            id: user.id,
            account_created_at: user.account_created_at,
            profile_picture_url: user.profile_picture_url,
            username: user.username,
        }
    }
}

/// The body of a request to create a file record.
pub struct CreateFileRequestBody {
    /// The file's mime type.
    pub mime_type: String,
    /// The file's name.
    pub name: String,
    /// The file's raw data.
    pub data: Vec<u8>,
}

impl CreateFileRequestBody {
    /// Build the unassigned file record this request describes, owned by
    /// the given account and created at the given moment.
    pub fn into_file(self, user_id: u64, now: i64) -> (r: File)
        ensures
            r@ == (FileView {
                id: 0,
                user_id: user_id,
                file_created_at: now,
                mime_type: self.mime_type@,
                name: self.name@,
                data: self.data@,
            }),
    {
        let r = File {
            id: 0,
            user_id,
            file_created_at: now,
            mime_type: self.mime_type,
            name: self.name,
            data: self.data,
        };
        proof {
            assert(r@ =~= (FileView {
                id: 0,
                user_id: user_id,
                file_created_at: now,
                mime_type: self.mime_type@,
                name: self.name@,
                data: self.data@,
            }));
        }
        r
    }
}

/// The body of a request to update a file record: only the provided
/// fields change.
pub struct UpdateFileRequestBody {
    /// A new mime type, if it is being changed.
    pub mime_type: Option<String>,
    /// A new name, if it is being changed.
    pub name: Option<String>,
    /// New raw data, if it is being changed.
    pub data: Option<Vec<u8>>,
}

impl UpdateFileRequestBody {
    /// Apply the provided fields to a file record, leaving every other
    /// field as it was.
    pub fn apply(&self, file: &mut File)
        ensures
            final(file)@ == (FileView {
                mime_type: patched_text(self.mime_type, old(file)@.mime_type),
                name: patched_text(self.name, old(file)@.name),
                data: patched_data(self.data, old(file)@.data),
                ..old(file)@
            }),
    {
        match &self.mime_type {
            Some(mime_type) => {
                file.mime_type = mime_type.clone();
            },
            None => {},
        }
        match &self.name {
            Some(name) => {
                file.name = name.clone();
            },
            None => {},
        }
        match &self.data {
            Some(data) => {
                let mut copied: Vec<u8> = Vec::new();
                let mut i: usize = 0;
                while i < data.len()
                    invariant
                        i <= data@.len(),
                        copied@ == data@.subrange(0, i as int),
                    decreases data@.len() - i,
                {
                    copied.push(data[i]);
                    i = i + 1;
                }
                proof {
                    assert(copied@ =~= data@);
                }
                file.data = copied;
            },
            None => {},
        }
        proof {
            assert(file@ =~= (FileView {
                mime_type: patched_text(self.mime_type, old(file)@.mime_type),
                name: patched_text(self.name, old(file)@.name),
                data: patched_data(self.data, old(file)@.data),
                ..old(file)@
            }));
        }
    }
}

} // verus!

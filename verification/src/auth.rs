//! The authentication orchestrator: authenticate by credentials, by bearer
//! token, or by the token material extracted from a request.
//!
//! All three entry points collapse every failure into `NotAuthenticated`.
//! Token validity is bound to a mutable account attribute instead of a
//! revocation list: a token carries the password-reset timestamp captured
//! at issuance and is honoured only while that still equals the stored
//! record's value, so changing the password implicitly revokes every token
//! issued before the change.

use vstd::prelude::*;

use crate::crypto::{claims_of, verify_ok, CryptoService};
use crate::model::{User, UserView};
use crate::outcome::{AuthenticationResult, QueryResult, SystemError, UpdateResult};
use crate::store::{db_wf, first_user_with_username, user_by_id, Database, DatabaseView};
use crate::user_service::{update_outcome_at, UserService};
use crate::validation::ValidationErrors;

verus! {

/// The scheme marker a bearer token is sent under.
pub open spec fn bearer_prefix() -> Seq<char> {
    seq!['B', 'e', 'a', 'r', 'e', 'r', ' ']
}

/// Whether a credential string begins with the bearer scheme marker.
pub open spec fn starts_with_bearer(s: Seq<char>) -> bool {
    s.len() >= 7 && s.subrange(0, 7) == bearer_prefix()
}

/// The credential string with every leading repetition of the bearer
/// scheme marker removed.
pub open spec fn strip_bearer(s: Seq<char>) -> Seq<char>
    decreases s.len(),
{
    if starts_with_bearer(s) {
        strip_bearer(s.subrange(7, s.len() as int))
    } else {
        s
    }
}

/// The account that a username/password pair authenticates: the first
/// stored account with that username, provided the password verifies
/// against its stored hash.
pub open spec fn credentials_auth(
    db: DatabaseView,
    username: Seq<char>,
    password: Seq<char>,
) -> Option<UserView> {
    match first_user_with_username(db.users, username) {
        Some(account) => if verify_ok(password, account.password) {
            Some(account)
        } else {
            None
        },
        None => None,
    }
}

/// The account that a bearer token authenticates: the token must decode
/// under the verification key, name a stored account, and carry exactly
/// that account's current password-reset timestamp.
pub open spec fn token_auth(db: DatabaseView, key: Seq<u8>, token: Seq<char>) -> Option<UserView> {
    match claims_of(key, token) {
        Some(claims) => match user_by_id(db.users, claims.0) {
            Some(account) => if account.password_reset_at == claims.3 {
                Some(account)
            } else {
                None
            },
            None => None,
        },
        None => None,
    }
}

/// The view of an optional credential string.
pub open spec fn credential_view(credential: Option<String>) -> Option<Seq<char>> {
    match credential {
        Some(s) => Some(s@),
        None => None,
    }
}

/// The account that request metadata authenticates: the header credential
/// takes precedence over the cookie credential, the chosen one must carry
/// the bearer scheme marker, and what remains after stripping the marker
/// is authenticated as a token.
pub open spec fn request_auth(
    db: DatabaseView,
    key: Seq<u8>,
    header: Option<Seq<char>>,
    cookie: Option<Seq<char>>,
) -> Option<UserView> {
    let credential = if header is Some {
        header
    } else {
        cookie
    };
    match credential {
        Some(s) => if starts_with_bearer(s) {
            token_auth(db, key, strip_bearer(s))
        } else {
            None
        },
        None => None,
    }
}

/// Whether an authentication result reports exactly the expected account:
/// success with that account when one is expected, `NotAuthenticated` when
/// none is, and never an error.
pub open spec fn auth_outcome(expected: Option<UserView>, r: AuthenticationResult) -> bool {
    match r {
        AuthenticationResult::Success(account) => expected == Some(account@),
        AuthenticationResult::NotAuthenticated => expected is None,
        AuthenticationResult::Failure(_) => false,
    }
}

/// Check whether a credential string begins with the bearer scheme marker.
fn has_bearer_prefix(credential: &String) -> (r: bool)
    ensures
        r == starts_with_bearer(credential@),
{
    let text = credential.as_str();
    let n = text.unicode_len();
    if n < 7 {
        return false;
    }
    let matched = text.get_char(0) == 'B' && text.get_char(1) == 'e' && text.get_char(2) == 'a'
        && text.get_char(3) == 'r' && text.get_char(4) == 'e' && text.get_char(5) == 'r'
        && text.get_char(6) == ' ';
    proof {
        if matched {
            assert(credential@.subrange(0, 7) =~= bearer_prefix());
        } else {
            if credential@.subrange(0, 7) == bearer_prefix() {
                assert(credential@[0] == bearer_prefix()[0]);
                assert(credential@[1] == bearer_prefix()[1]);
                assert(credential@[2] == bearer_prefix()[2]);
                assert(credential@[3] == bearer_prefix()[3]);
                assert(credential@[4] == bearer_prefix()[4]);
                assert(credential@[5] == bearer_prefix()[5]);
                assert(credential@[6] == bearer_prefix()[6]);
            }
        }
    }
    matched
}

/// Remove every leading repetition of the bearer scheme marker.
fn strip_bearer_marker(credential: &String) -> (r: String)
    ensures
        r@ == strip_bearer(credential@),
{
    let mut current: String = credential.clone();
    let mut has_marker = has_bearer_prefix(&current);
    while has_marker
        invariant
            has_marker == starts_with_bearer(current@),
            strip_bearer(credential@) == strip_bearer(current@),
        decreases current@.len(),
    {
        let n = current.as_str().unicode_len();
        let stripped = String::from_str(current.as_str().substring_char(7, n));
        proof {
            assert(stripped@ == current@.subrange(7, current@.len() as int));
        }
        current = stripped;
        has_marker = has_bearer_prefix(&current);
    }
    current
}

/// The authentication orchestrator.  It holds no persistent state of its
/// own: every entry point reads the store it is handed.
pub struct AuthService {
    /// The crypto service used to verify passwords and decode tokens.
    pub crypto_service: CryptoService,
    /// The account service used to look accounts up.
    pub user_service: UserService,
}

impl AuthService {
    /// Build an authentication orchestrator from its two collaborators.
    pub fn new(crypto_service: CryptoService, user_service: UserService) -> (r: AuthService)
        ensures
            r.crypto_service.jwt_encoding_key@ == crypto_service.jwt_encoding_key@,
            r.crypto_service.jwt_decoding_key@ == crypto_service.jwt_decoding_key@,
    {
        AuthService { crypto_service, user_service }
    }

    /// Authenticate a user by username and password.
    pub fn authenticate_credentials(
        &self,
        username: &String,
        password: &String,
        store: &Database,
    ) -> (r: AuthenticationResult)
        requires
            db_wf(store@),
        ensures
            auth_outcome(credentials_auth(store@, username@, password@), r),
    {
        let account = match self.user_service.get_by_username(username, store) {
            QueryResult::Success(account) => account,
            QueryResult::NotFound => {
                return AuthenticationResult::NotAuthenticated;
            },
            QueryResult::Failure(e) => {
                proof {
                    assert(false);
                }
                return AuthenticationResult::Failure(e);
            },
        };
        match self.crypto_service.verify_password(password, &account.password) {
            Ok(()) => AuthenticationResult::Success(account),
            Err(_) => AuthenticationResult::NotAuthenticated,
        }
    }

    /// Authenticate a user by bearer token.
    pub fn authenticate_token(&self, token: &String, store: &Database) -> (r: AuthenticationResult)
        requires
            db_wf(store@),
        ensures
            auth_outcome(token_auth(store@, self.crypto_service.jwt_decoding_key@, token@), r),
    {
        let claims = match self.crypto_service.decode_token(token) {
            Ok(claims) => claims,
            Err(_) => {
                return AuthenticationResult::NotAuthenticated;
            },
        };
        let account = match self.user_service.get_by_id(&claims.id, store) {
            QueryResult::Success(account) => account,
            QueryResult::NotFound => {
                return AuthenticationResult::NotAuthenticated;
            },
            QueryResult::Failure(e) => {
                proof {
                    assert(false);
                }
                return AuthenticationResult::Failure(e);
            },
        };
        if claims.password_last_reset == account.password_reset_at {
            AuthenticationResult::Success(account)
        } else {
            AuthenticationResult::NotAuthenticated
        }
    }

    /// Authenticate a user by the credential strings extracted from a
    /// request: the `Authorization` header value if present, else the
    /// authorization cookie value.  The chosen credential must carry the
    /// bearer scheme marker, which is stripped before token
    /// authentication.
    pub fn authenticate_request(
        &self,
        auth_header: Option<String>,
        auth_cookie: Option<String>,
        store: &Database,
    ) -> (r: AuthenticationResult)
        requires
            db_wf(store@),
        ensures
            auth_outcome(
                request_auth(
                    store@,
                    self.crypto_service.jwt_decoding_key@,
                    credential_view(auth_header),
                    credential_view(auth_cookie),
                ),
                r,
            ),
    {
        let credential = match auth_header {
            Some(header) => header,
            None => match auth_cookie {
                Some(cookie) => cookie,
                None => {
                    return AuthenticationResult::NotAuthenticated;
                },
            },
        };
        if !has_bearer_prefix(&credential) {
            return AuthenticationResult::NotAuthenticated;
        }
        let token = strip_bearer_marker(&credential);
        self.authenticate_token(&token, store)
    }
}

/// Token binding: a token carries the password-reset timestamp captured at
/// issuance; whenever the stored account's timestamp no longer equals it,
/// token authentication rejects the token.
pub proof fn lemma_stale_reset_stamp_rejects_token(
    db: DatabaseView,
    key: Seq<u8>,
    token: Seq<char>,
    claims: (u64, i64, i64, i64),
    account: UserView,
)
    requires
        claims_of(key, token) == Some(claims),
        user_by_id(db.users, claims.0) == Some(account),
        account.password_reset_at != claims.3,
    ensures
        token_auth(db, key, token) is None,
{
}

/// Token binding through an update: a successful password-changing update
/// moves the account's password-reset timestamp to the update's clock
/// reading, so a token that captured any other timestamp no longer
/// authenticates against the updated store.  (An update in the very same
/// second as issuance leaves the captured timestamp equal and is excluded
/// by the last premise.)
pub proof fn lemma_password_change_invalidates_token(
    db0: DatabaseView,
    db1: DatabaseView,
    u: UserView,
    now: i64,
    r: UpdateResult<User, ValidationErrors, SystemError>,
    key: Seq<u8>,
    token: Seq<char>,
    claims: (u64, i64, i64, i64),
)
    requires
        db_wf(db0),
        update_outcome_at(db0, u, now, r, db1),
        r matches UpdateResult::Success(_),
        user_by_id(db0.users, u.id) matches Some(existing) && u.password != existing.password,
        claims_of(key, token) == Some(claims),
        claims.0 == u.id,
        claims.3 != now,
    ensures
        token_auth(db1, key, token) is None,
{
    match r {
        UpdateResult::Success(stored) => {
            let idx = crate::store::user_index(db0.users, u.id);
            assert(crate::store::contains_user_id(db0.users, u.id));
            assert(0 <= idx < db0.users.len() && db0.users[idx].id == u.id);
            assert(db1.users[idx] == stored@);
            assert(stored@.id == u.id);
            assert(stored@.password_reset_at == now);
            assert(crate::store::contains_user_id(db1.users, u.id));
            let ci = crate::store::user_index(db1.users, u.id);
            assert(0 <= ci < db1.users.len() && db1.users[ci].id == u.id);
            assert forall|k: int| 0 <= k < db1.users.len() && k != idx implies (
            #[trigger] db1.users[k]).id != u.id by {
                assert(db1.users[k] == db0.users[k]);
                assert(db0.users[idx].id == u.id);
            }
            assert(ci == idx);
            assert(user_by_id(db1.users, u.id) == Some(stored@));
        },
        _ => {},
    }
}

} // verus!

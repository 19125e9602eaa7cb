//! Password hashing/verification and bearer-token issuance/verification.
//!
//! The cryptography itself is done by outside crates — argon2 for password
//! hashing and jsonwebtoken for RS256-signed tokens — behind trusted
//! wrappers.  What those calls return is named by uninterpreted spec
//! functions ([`verify_ok`], [`token_of`], [`claims_of`]); the contracts of
//! the public operations are exact over those names, and everything after
//! the calls is verified.

use vstd::prelude::*;

use argon2::{Argon2, PasswordHasher, PasswordVerifier};
use jsonwebtoken::errors::ErrorKind;
use jsonwebtoken::{Algorithm, DecodingKey, EncodingKey, Header, Validation};
use serde_json::Value;

use crate::model::{User, UserClaims};
use crate::util::now_unix;

verus! {

/// Failures of the crypto layer.  Password verification failure deliberately
/// covers both a wrong password and a malformed stored hash, so callers
/// cannot distinguish the two.
#[derive(Clone, Copy, PartialEq, Eq, Structural, Debug)]
pub enum CryptoError {
    /// Hashing a password failed.
    Hashing,
    /// A password did not verify against a stored hash (or the hash was
    /// malformed).
    Verification,
    /// Signing a token failed.
    TokenCreation,
    /// A token failed signature or structural validation.
    TokenRejected,
}

/// Whether argon2's password verification accepts `password` against the
/// stored hash `hash`.  The check is a pure function of the two strings;
/// this name stands for its outcome.
pub uninterp spec fn verify_ok(password: Seq<char>, hash: Seq<char>) -> bool;

/// The token that RS256 signing produces for the given private key and
/// claim fields.  Signing is deterministic in its inputs; this name stands
/// for its result.
pub uninterp spec fn token_of(
    key: Seq<u8>,
    id: u64,
    exp: i64,
    iat: i64,
    password_last_reset: i64,
) -> Seq<char>;

/// The claim fields `(id, exp, iat, password_last_reset)` that RS256
/// validation extracts from a token under the given public key, or `None`
/// if the token is rejected.  Validation is deterministic in its inputs;
/// this name stands for its result.
pub uninterp spec fn claims_of(key: Seq<u8>, token: Seq<char>) -> Option<(u64, i64, i64, i64)>;

/// Whether a string begins with the PHC-format marker `$argon2id$` that
/// argon2's default hasher writes.
pub open spec fn phc_prefix(s: Seq<char>) -> bool {
    s.len() >= 10 && s.subrange(0, 10) == seq!['$', 'a', 'r', 'g', 'o', 'n', '2', 'i', 'd', '$']
}

#[verifier::external_type_specification]
#[verifier::external_body]
pub struct ExPasswordHashError(argon2::password_hash::Error);

#[verifier::external_type_specification]
#[verifier::external_body]
pub struct ExJwtError(jsonwebtoken::errors::Error);

/// Relies on argon2's `PasswordHasher::hash_password` with a fresh random
/// salt: on success the result is a PHC string (`$argon2id$...`) that
/// argon2's own `verify_password` accepts for the same password.
#[verifier::external_body]
fn argon2_hash(password: &String) -> (r: Result<String, argon2::password_hash::Error>)
    ensures
        r matches Ok(h) ==> verify_ok(password@, h@) && phc_prefix(h@),
{
    match Argon2::default().hash_password(password.as_bytes()) {
        Ok(hash) => Ok(hash.to_string()),
        Err(error) => Err(error),
    }
}

/// Relies on argon2's `PasswordVerifier::verify_password`: a deterministic
/// check of a password against a PHC hash string, succeeding exactly when
/// the hash matches the password.
#[verifier::external_body]
fn argon2_verify(password: &String, hash: &String) -> (r: Result<
    (),
    argon2::password_hash::Error,
>)
    ensures
        r is Ok <==> verify_ok(password@, hash@),
{
    Argon2::default().verify_password(password.as_bytes(), hash.as_str())
}

/// Relies on jsonwebtoken's `encode` with an RS256 header: a deterministic
/// RSA signature over the serialized claim fields.
#[verifier::external_body]
fn jwt_encode(key: &Vec<u8>, id: u64, exp: i64, iat: i64, password_last_reset: i64) -> (r: Result<
    String,
    jsonwebtoken::errors::Error,
>)
    ensures
        r matches Ok(t) ==> t@ == token_of(key@, id, exp, iat, password_last_reset),
{
    let encoding_key = EncodingKey::from_rsa_pem(key)?;
    let header = Header::new(Algorithm::RS256);
    let mut claims = serde_json::Map::new();
    claims.insert(String::from("id"), Value::from(id));
    claims.insert(String::from("exp"), Value::from(exp));
    claims.insert(String::from("iat"), Value::from(iat));
    claims.insert(String::from("passwordLastReset"), Value::from(password_last_reset));
    jsonwebtoken::encode(&header, &Value::Object(claims), &encoding_key)
}

/// Relies on jsonwebtoken's `decode` with RS256-only validation and expiry
/// checking disabled: a deterministic signature check followed by claim
/// extraction.
#[verifier::external_body]
fn jwt_decode(key: &Vec<u8>, token: &String) -> (r: Result<
    (u64, i64, i64, i64),
    jsonwebtoken::errors::Error,
>)
    ensures
        r matches Ok(c) ==> claims_of(key@, token@) == Some(c),
        r is Err ==> claims_of(key@, token@) is None,
{
    let decoding_key = DecodingKey::from_rsa_pem(key)?;
    let mut validation = Validation::new(Algorithm::RS256);
    validation.validate_exp = false;
    let data = jsonwebtoken::decode::<Value>(token.as_str(), &decoding_key, &validation)?;
    let missing = || jsonwebtoken::errors::Error::from(ErrorKind::InvalidToken);
    let id = data.claims.get("id").and_then(Value::as_u64).ok_or_else(missing)?;
    let exp = data.claims.get("exp").and_then(Value::as_i64).ok_or_else(missing)?;
    let iat = data.claims.get("iat").and_then(Value::as_i64).ok_or_else(missing)?;
    let plr = data.claims.get("passwordLastReset").and_then(Value::as_i64).ok_or_else(missing)?;
    Ok((id, exp, iat, plr))
}

/// The crypto service: password hashing/verification and token
/// issuance/verification.  Pure computation — it never touches storage.
pub struct CryptoService {
    /// The RSA private key (PEM bytes) used to sign tokens.
    pub jwt_encoding_key: Vec<u8>,
    /// The RSA public key (PEM bytes) used to verify tokens.
    pub jwt_decoding_key: Vec<u8>,
}

impl CryptoService {
    /// Build a crypto service from a PEM-encoded RSA key pair.
    pub fn new(jwt_encoding_key: Vec<u8>, jwt_decoding_key: Vec<u8>) -> (r: CryptoService)
        ensures
            r.jwt_encoding_key@ == jwt_encoding_key@,
            r.jwt_decoding_key@ == jwt_decoding_key@,
    {
        CryptoService { jwt_encoding_key, jwt_decoding_key }
    }

    /// Create an authentication token for a user, capturing the user's id
    /// and password-reset timestamp, issued at the given moment and with an
    /// effectively unbounded expiry.
    pub fn create_token_at(&self, user: &User, iat: i64) -> (r: Result<String, CryptoError>)
        ensures
            r matches Ok(t) ==> t@ == token_of(
                self.jwt_encoding_key@,
                user.id,
                i64::MAX,
                iat,
                user.password_reset_at,
            ),
            r matches Err(e) ==> e == CryptoError::TokenCreation,
    {
        match jwt_encode(&self.jwt_encoding_key, user.id, i64::MAX, iat, user.password_reset_at) {
            Ok(token) => Ok(token),
            Err(_) => Err(CryptoError::TokenCreation),
        }
    }

    /// Create an authentication token for a user, issued now.
    pub fn create_token(&self, user: &User) -> (r: Result<String, CryptoError>)
        ensures
            r matches Ok(t) ==> exists|iat: i64|
                t@ == token_of(
                    self.jwt_encoding_key@,
                    user.id,
                    i64::MAX,
                    iat,
                    user.password_reset_at,
                ),
            r matches Err(e) ==> e == CryptoError::TokenCreation,
    {
        let iat = now_unix();
        self.create_token_at(user, iat)
    }

    /// Decode an authentication token, returning its claims exactly when
    /// RS256 validation under the service's public key accepts it.
    pub fn decode_token(&self, token: &String) -> (r: Result<UserClaims, CryptoError>)
        ensures
            match claims_of(self.jwt_decoding_key@, token@) {
                Some(c) => r matches Ok(d) && d.id == c.0 && d.exp == c.1 && d.iat == c.2
                    && d.password_last_reset == c.3,
                None => r matches Err(e) && e == CryptoError::TokenRejected,
            },
    {
        match jwt_decode(&self.jwt_decoding_key, token) {
            Ok((id, exp, iat, password_last_reset)) => Ok(
                UserClaims { id, exp, iat, password_last_reset },
            ),
            Err(_) => Err(CryptoError::TokenRejected),
        }
    }

    /// Hash a plain-text password with a fresh random salt.  On success the
    /// hash verifies against the password and is a PHC string, so it never
    /// equals a password that is not itself PHC-formatted.
    pub fn hash_password(&self, password: &String) -> (r: Result<String, CryptoError>)
        ensures
            r matches Ok(h) ==> verify_ok(password@, h@) && phc_prefix(h@),
            r matches Err(e) ==> e == CryptoError::Hashing,
    {
        match argon2_hash(password) {
            Ok(hash) => Ok(hash),
            Err(_) => Err(CryptoError::Hashing),
        }
    }

    /// Check a plain-text password against a stored hash, succeeding
    /// exactly when the hash matches the password.
    pub fn verify_password(&self, password: &String, hash: &String) -> (r: Result<(), CryptoError>)
        ensures
            r is Ok <==> verify_ok(password@, hash@),
            r matches Err(e) ==> e == CryptoError::Verification,
    {
        match argon2_verify(password, hash) {
            Ok(()) => Ok(()),
            Err(_) => Err(CryptoError::Verification),
        }
    }

    /// An exact copy of the service (the key pair is shared data).
    pub fn duplicate(&self) -> (r: CryptoService)
        ensures
            r.jwt_encoding_key@ == self.jwt_encoding_key@,
            r.jwt_decoding_key@ == self.jwt_decoding_key@,
    {
        CryptoService {
            jwt_encoding_key: self.jwt_encoding_key.clone(),
            jwt_decoding_key: self.jwt_decoding_key.clone(),
        }
    }
}

/// A password hash in PHC format never equals a plain-text password that
/// does not itself begin with the PHC marker; in particular, hashing is
/// never the identity on such passwords.
pub proof fn lemma_phc_hash_differs_from_plain(password: Seq<char>, hash: Seq<char>)
    requires
        phc_prefix(hash),
        !phc_prefix(password),
    ensures
        hash != password,
{
}

} // verus!

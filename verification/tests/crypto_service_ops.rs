//! Crypto service tests: password hashing and verification, token
//! issuance and decoding, run against the real hashing and signing crates.
//!
//! The signing key pair is rebuilt at runtime from two fixed prime factors
//! generated for these tests alone; it protects nothing.

use account_backend::crypto::CryptoService;
use account_backend::model::User;
use regex::Regex;
use rsa::pkcs8::{EncodePrivateKey, EncodePublicKey, LineEnding};

const TEST_PRIME_P: &str =
    "11253618868397808182899503772030448981248692902128822750446092670201058288432326229022585308178554075600036635337368623916565680419184392013321567870382477";
const TEST_PRIME_Q: &str =
    "10122595510453745747656053796080474172088040409617090258969047430435781879050444132374040614637464283918623760129662227913266922174207665029104390859767747";

/// Rebuild the deterministic test key pair as PEM bytes: private key
/// first, public key second.
fn crypto_key_pems() -> (Vec<u8>, Vec<u8>) {
    let p = rsa::BigUint::parse_bytes(TEST_PRIME_P.as_bytes(), 10).expect("bad test prime");
    let q = rsa::BigUint::parse_bytes(TEST_PRIME_Q.as_bytes(), 10).expect("bad test prime");
    let key = rsa::RsaPrivateKey::from_p_q(p, q, rsa::BigUint::from(65537u32))
        .expect("test key construction failed");
    let private_pem = key.to_pkcs8_pem(LineEnding::LF).expect("private key encoding failed");
    let public_pem = key
        .to_public_key()
        .to_public_key_pem(LineEnding::LF)
        .expect("public key encoding failed");
    (private_pem.as_bytes().to_vec(), public_pem.into_bytes())
}

fn crypto_fixture() -> CryptoService {
    let (private_pem, public_pem) = crypto_key_pems();
    CryptoService::new(private_pem, public_pem)
}

fn crypto_user(id: u64, password_reset_at: i64) -> User {
    User {
        id,
        account_created_at: 1_600_000_000,
        password_reset_at,
        profile_picture_url: String::from("https://pictures.example/default.png"),
        username: String::from("ada"),
        password: String::from("pw"),
        email: String::from("ada@example.com"),
        email_is_verified: false,
        password_reset_is_required: false,
        account_is_locked: false,
        account_is_banned: false,
    }
}

fn is_valid_jwt(token: &String) -> bool {
    let jwt_regex = Regex::new(r"(^[\w-]+\.[\w-]+\.[\w-]+$)").expect("Failed to validate token");
    jwt_regex.is_match(token.as_str())
}

#[test]
fn creating_a_token_returns_a_valid_jwt() {
    let crypto_service = crypto_fixture();
    let user = crypto_user(7, 1_600_000_123);
    let token = crypto_service.create_token(&user).expect("Failed to create token");
    assert!(is_valid_jwt(&token));
}

#[test]
fn decoding_an_invalid_token_returns_an_error() {
    let crypto_service = crypto_fixture();
    let bad_token = String::from("My.Bad.Token");
    assert!(crypto_service.decode_token(&bad_token).is_err());
}

#[test]
fn decoding_a_valid_token_contains_the_correct_information() {
    let crypto_service = crypto_fixture();
    let user = crypto_user(42, 1_600_000_456);
    let token = crypto_service.create_token(&user).expect("Failed to create token");
    assert!(is_valid_jwt(&token));
    let claims = crypto_service
        .decode_token(&token)
        .expect("Failed to decode token");
    assert_eq!(claims.id, user.id);
    assert_eq!(claims.password_last_reset, user.password_reset_at);
}

#[test]
fn hashing_a_password_returns_a_hash() {
    let crypto_service = crypto_fixture();
    let password = String::from("MyPassword");
    let hash = crypto_service.hash_password(&password).expect("Failed to hash password");
    assert_ne!(password, hash);
}

#[test]
fn hashing_the_same_password_twice_returns_different_hashes() {
    let crypto_service = crypto_fixture();
    let password = String::from("MyPassword");
    let first = crypto_service.hash_password(&password).expect("Failed to hash password");
    let second = crypto_service.hash_password(&password).expect("Failed to hash password");
    assert_ne!(first, second);
}

#[test]
fn hashes_carry_the_phc_format_marker() {
    let crypto_service = crypto_fixture();
    let password = String::from("MyPassword");
    let hash = crypto_service.hash_password(&password).expect("Failed to hash password");
    assert!(hash.starts_with("$argon2id$"));
}

#[test]
fn verifying_an_incorrect_password_fails() {
    let crypto_service = crypto_fixture();
    let password = String::from("MyPassword");
    let incorrect_password = String::from("NotMyPassword");
    let hash = crypto_service.hash_password(&password).expect("Failed to hash password");
    assert_ne!(password, hash);
    assert!(crypto_service.verify_password(&incorrect_password, &hash).is_err());
}

#[test]
fn verifying_a_correct_password_succeeds() {
    let crypto_service = crypto_fixture();
    let password = String::from("MyPassword");
    let hash = crypto_service.hash_password(&password).expect("Failed to hash password");
    assert_ne!(password, hash);
    crypto_service
        .verify_password(&password, &hash)
        .expect("Password failed when it should have been correct");
}

#[test]
fn creating_a_token_with_an_invalid_signing_key_fails() {
    let broken = CryptoService::new(b"not a key".to_vec(), b"not a key".to_vec());
    let user = crypto_user(7, 1_600_000_123);
    assert!(broken.create_token(&user).is_err());
}

#[test]
fn tokens_issued_under_one_key_pair_are_rejected_under_another() {
    let crypto_service = crypto_fixture();
    let (private_pem, _) = crypto_key_pems();
    let other = CryptoService::new(private_pem, b"not a key".to_vec());
    let user = crypto_user(7, 1_600_000_123);
    let token = crypto_service.create_token(&user).expect("Failed to create token");
    assert!(other.decode_token(&token).is_err());
}

//! Account service tests: validation, uniqueness enforcement, hashing and
//! transactional behaviour, against the in-memory store and the real
//! hashing crate.

use account_backend::crypto::CryptoService;
use account_backend::model::User;
use account_backend::outcome::{DeletionResult, InsertionResult, QueryResult, UpdateResult};
use account_backend::store::{Database, QueryContext};
use account_backend::user_service::UserService;

fn service_fixture() -> UserService {
    UserService::new(CryptoService::new(b"unused".to_vec(), b"unused".to_vec()))
}

fn service_user(username: &str, email: &str, password: &str) -> User {
    User {
        id: 0,
        account_created_at: 1_600_000_000,
        password_reset_at: 1_600_000_000,
        profile_picture_url: String::from("https://pictures.example/default.png"),
        username: String::from(username),
        password: String::from(password),
        email: String::from(email),
        email_is_verified: false,
        password_reset_is_required: false,
        account_is_locked: false,
        account_is_banned: false,
    }
}

fn must_insert(service: &UserService, store: &mut Database, user: &User) -> User {
    match service.insert(user, store) {
        InsertionResult::Success(stored) => stored,
        InsertionResult::Invalid(errors) => panic!("insertion rejected: {:?}", errors),
        InsertionResult::Failure(error) => panic!("insertion failed: {:?}", error),
    }
}

#[test]
fn inserting_a_user_returns_the_user_after_insertion() {
    let service = service_fixture();
    let mut store = Database::new();
    let user = service_user("ada", "ada@example.com", "Secret1");
    let stored = must_insert(&service, &mut store, &user);
    assert!(stored.id > 0);
    assert_eq!(stored.account_created_at, user.account_created_at);
    assert_eq!(stored.password_reset_at, user.password_reset_at);
    assert_eq!(stored.profile_picture_url, user.profile_picture_url);
    assert_eq!(stored.username, user.username);
    assert_eq!(stored.email, user.email);
    assert_eq!(stored.email_is_verified, user.email_is_verified);
    assert_eq!(stored.password_reset_is_required, user.password_reset_is_required);
    assert_eq!(stored.account_is_locked, user.account_is_locked);
    assert_eq!(stored.account_is_banned, user.account_is_banned);
    assert_ne!(stored.password, user.password);
    assert!(stored.password.starts_with("$argon2id$"));
}

#[test]
fn inserted_passwords_verify_against_the_original() {
    let service = service_fixture();
    let mut store = Database::new();
    let stored = must_insert(&service, &mut store, &service_user("ada", "a@x.com", "Secret1"));
    service
        .crypto_service
        .verify_password(&String::from("Secret1"), &stored.password)
        .expect("stored hash should verify against the original password");
}

#[test]
fn inserting_a_user_with_username_that_is_already_in_use_returns_a_validation_error() {
    let service = service_fixture();
    let mut store = Database::new();
    must_insert(&service, &mut store, &service_user("bob", "bob@example.com", "Secret1"));
    let duplicate = service_user("bob", "other@example.com", "Secret1");
    match service.insert(&duplicate, &mut store) {
        InsertionResult::Invalid(errors) => {
            assert_eq!(errors.errors.len(), 1);
            assert_eq!(errors.errors[0].field, String::from("username"));
            assert_eq!(errors.errors[0].code, String::from("unique"));
            assert_eq!(errors.errors[0].value, String::from("bob"));
        },
        _ => panic!("duplicate username was not rejected"),
    }
}

#[test]
fn inserting_a_user_with_email_that_is_already_in_use_returns_a_validation_error() {
    let service = service_fixture();
    let mut store = Database::new();
    must_insert(&service, &mut store, &service_user("ada", "shared@example.com", "Secret1"));
    let duplicate = service_user("grace", "shared@example.com", "Secret1");
    match service.insert(&duplicate, &mut store) {
        InsertionResult::Invalid(errors) => {
            assert_eq!(errors.errors.len(), 1);
            assert_eq!(errors.errors[0].field, String::from("email"));
            assert_eq!(errors.errors[0].code, String::from("unique"));
        },
        _ => panic!("duplicate email was not rejected"),
    }
}

#[test]
fn conflicting_username_and_email_are_both_reported() {
    let service = service_fixture();
    let mut store = Database::new();
    must_insert(&service, &mut store, &service_user("ada", "ada@example.com", "Secret1"));
    let duplicate = service_user("ada", "ada@example.com", "Secret1");
    match service.insert(&duplicate, &mut store) {
        InsertionResult::Invalid(errors) => {
            assert_eq!(errors.errors.len(), 2);
            assert_eq!(errors.errors[0].field, String::from("username"));
            assert_eq!(errors.errors[1].field, String::from("email"));
        },
        _ => panic!("duplicate username and email were not rejected"),
    }
}

#[test]
fn a_rejected_insertion_leaves_no_row_behind() {
    let service = service_fixture();
    let mut store = Database::new();
    must_insert(&service, &mut store, &service_user("ada", "ada@example.com", "Secret1"));
    assert_eq!(store.users.rows.len(), 1);
    let duplicate = service_user("ada", "other@example.com", "Secret1");
    assert!(matches!(service.insert(&duplicate, &mut store), InsertionResult::Invalid(_)));
    assert_eq!(store.users.rows.len(), 1);
}

#[test]
fn an_uncommitted_transaction_leaves_no_row_behind() {
    let service = service_fixture();
    let mut store = Database::new();
    let mut context = QueryContext::begin_transaction(&store);
    let result = service.insert_with_context(
        &service_user("ada", "ada@example.com", "Secret1"),
        &mut context,
    );
    assert!(matches!(result, InsertionResult::Success(_)));
    context.release(&mut store);
    assert_eq!(store.users.rows.len(), 0);
}

#[test]
fn querying_a_user_by_id_that_does_exist_returns_the_user() {
    let service = service_fixture();
    let mut store = Database::new();
    let stored = must_insert(&service, &mut store, &service_user("ada", "a@x.com", "Secret1"));
    match service.get_by_id(&stored.id, &store) {
        QueryResult::Success(found) => assert_eq!(found, stored),
        _ => panic!("user not found"),
    }
}

#[test]
fn querying_a_user_by_id_that_does_not_exist_should_not_return_a_user() {
    let service = service_fixture();
    let store = Database::new();
    assert!(matches!(service.get_by_id(&12, &store), QueryResult::NotFound));
}

#[test]
fn querying_a_user_by_username_that_does_exist_returns_the_user() {
    let service = service_fixture();
    let mut store = Database::new();
    let stored = must_insert(&service, &mut store, &service_user("ada", "a@x.com", "Secret1"));
    match service.get_by_username(&String::from("ada"), &store) {
        QueryResult::Success(found) => assert_eq!(found, stored),
        _ => panic!("user not found"),
    }
}

#[test]
fn querying_a_user_by_username_that_does_not_exist_should_not_return_a_user() {
    let service = service_fixture();
    let store = Database::new();
    assert!(matches!(
        service.get_by_username(&String::from("nobody"), &store),
        QueryResult::NotFound
    ));
}

#[test]
fn querying_a_user_by_email_that_does_exist_returns_the_user() {
    let service = service_fixture();
    let mut store = Database::new();
    let stored = must_insert(&service, &mut store, &service_user("ada", "a@x.com", "Secret1"));
    match service.get_by_email(&String::from("a@x.com"), &store) {
        QueryResult::Success(found) => assert_eq!(found, stored),
        _ => panic!("user not found"),
    }
}

#[test]
fn querying_a_user_by_email_that_does_not_exist_should_not_return_a_user() {
    let service = service_fixture();
    let store = Database::new();
    assert!(matches!(
        service.get_by_email(&String::from("nobody@example.com"), &store),
        QueryResult::NotFound
    ));
}

#[test]
fn updating_a_user_with_valid_information_should_succeed() {
    let service = service_fixture();
    let mut store = Database::new();
    let mut stored = must_insert(&service, &mut store, &service_user("ada", "a@x.com", "Secret1"));
    stored.profile_picture_url = String::from("https://pictures.example/new.png");
    match service.update(&stored, &mut store) {
        UpdateResult::Success(updated) => {
            assert_eq!(updated.profile_picture_url, String::from("https://pictures.example/new.png"));
            assert_eq!(updated.id, stored.id);
            assert_eq!(updated.password_reset_at, stored.password_reset_at);
        },
        _ => panic!("update did not succeed"),
    }
}

#[test]
fn updating_a_user_that_does_not_exist_returns_not_found() {
    let service = service_fixture();
    let mut store = Database::new();
    let mut absent = service_user("ada", "a@x.com", "Secret1");
    absent.id = 23;
    assert!(matches!(service.update(&absent, &mut store), UpdateResult::NotFound));
}

#[test]
fn updating_a_users_username_to_a_username_that_is_already_in_use_returns_a_validation_error() {
    let service = service_fixture();
    let mut store = Database::new();
    must_insert(&service, &mut store, &service_user("ada", "ada@example.com", "Secret1"));
    let mut second = must_insert(
        &service,
        &mut store,
        &service_user("grace", "grace@example.com", "Secret1"),
    );
    second.username = String::from("ada");
    match service.update(&second, &mut store) {
        UpdateResult::Invalid(errors) => {
            assert_eq!(errors.errors.len(), 1);
            assert_eq!(errors.errors[0].field, String::from("username"));
            assert_eq!(errors.errors[0].code, String::from("unique"));
        },
        _ => panic!("conflicting username was not rejected"),
    }
}

#[test]
fn updating_a_users_email_to_an_email_that_is_already_in_use_returns_a_validation_error() {
    let service = service_fixture();
    let mut store = Database::new();
    must_insert(&service, &mut store, &service_user("ada", "ada@example.com", "Secret1"));
    let mut second = must_insert(
        &service,
        &mut store,
        &service_user("grace", "grace@example.com", "Secret1"),
    );
    second.email = String::from("ada@example.com");
    match service.update(&second, &mut store) {
        UpdateResult::Invalid(errors) => {
            assert_eq!(errors.errors.len(), 1);
            assert_eq!(errors.errors[0].field, String::from("email"));
        },
        _ => panic!("conflicting email was not rejected"),
    }
}

#[test]
fn keeping_the_stored_hash_on_update_preserves_the_reset_timestamp() {
    let service = service_fixture();
    let mut store = Database::new();
    let stored = must_insert(&service, &mut store, &service_user("ada", "a@x.com", "Secret1"));
    match service.update(&stored, &mut store) {
        UpdateResult::Success(updated) => {
            assert_eq!(updated.password_reset_at, stored.password_reset_at);
            assert_eq!(updated.password, stored.password);
        },
        _ => panic!("update did not succeed"),
    }
}

#[test]
fn changing_the_password_rehashes_and_advances_the_reset_timestamp() {
    let service = service_fixture();
    let mut store = Database::new();
    let mut stored = must_insert(&service, &mut store, &service_user("ada", "a@x.com", "Secret1"));
    let old_reset_at = stored.password_reset_at;
    stored.password = String::from("Secret2");
    match service.update(&stored, &mut store) {
        UpdateResult::Success(updated) => {
            assert_ne!(updated.password, String::from("Secret2"));
            assert!(updated.password.starts_with("$argon2id$"));
            assert!(updated.password_reset_at > old_reset_at);
            service
                .crypto_service
                .verify_password(&String::from("Secret2"), &updated.password)
                .expect("new hash should verify against the new password");
        },
        _ => panic!("update did not succeed"),
    }
}

#[test]
fn deleting_a_user_that_does_not_exist_returns_not_found() {
    let service = service_fixture();
    let mut store = Database::new();
    assert!(matches!(service.delete(&99, &mut store), DeletionResult::NotFound));
}

#[test]
fn deleted_users_cannot_be_queried_after_being_deleted() {
    let service = service_fixture();
    let mut store = Database::new();
    let stored = must_insert(&service, &mut store, &service_user("ada", "a@x.com", "Secret1"));
    assert!(matches!(service.delete(&stored.id, &mut store), DeletionResult::Success));
    assert!(matches!(service.get_by_id(&stored.id, &store), QueryResult::NotFound));
}

#[test]
fn inserted_users_receive_distinct_sequential_ids() {
    let service = service_fixture();
    let mut store = Database::new();
    let first = must_insert(&service, &mut store, &service_user("ada", "a@x.com", "Secret1"));
    let second = must_insert(&service, &mut store, &service_user("grace", "g@x.com", "Secret1"));
    assert_eq!(second.id, first.id + 1);
}

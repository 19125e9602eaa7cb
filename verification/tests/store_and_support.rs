//! Execution-context semantics, the user request bodies, and the shared
//! utilities.

use account_backend::dto::{CreateUserRequestBody, GetUserResponseBody, UpdateUserRequestBody};
use account_backend::model::User;
use account_backend::store::{Database, QueryContext};
use account_backend::user_repository::UserRepository;
use account_backend::util::{generate_random_string, map_to_owned};

fn context_user(username: &str) -> User {
    User {
        id: 0,
        account_created_at: 1_600_000_000,
        password_reset_at: 1_600_000_000,
        profile_picture_url: String::from("https://pictures.example/default.png"),
        username: String::from(username),
        password: String::from("pw"),
        email: format!("{}@example.com", username),
        email_is_verified: false,
        password_reset_is_required: false,
        account_is_locked: false,
        account_is_banned: false,
    }
}

#[test]
fn committing_a_transaction_makes_its_statements_durable() {
    let mut store = Database::new();
    let repository = UserRepository;
    let mut context = QueryContext::begin_transaction(&store);
    repository.insert(&context_user("ada"), &mut context).expect("insertion failed");
    context.commit_if_transaction(&mut store).expect("commit failed");
    assert_eq!(store.users.rows.len(), 1);
}

#[test]
fn rolling_back_a_transaction_discards_its_statements() {
    let mut store = Database::new();
    let repository = UserRepository;
    let mut context = QueryContext::begin_transaction(&store);
    repository.insert(&context_user("ada"), &mut context).expect("insertion failed");
    context.rollback_if_transaction(&mut store).expect("rollback failed");
    assert_eq!(store.users.rows.len(), 0);
}

#[test]
fn releasing_an_uncommitted_transaction_never_commits() {
    let mut store = Database::new();
    let repository = UserRepository;
    let mut context = QueryContext::begin_transaction(&store);
    repository.insert(&context_user("ada"), &mut context).expect("insertion failed");
    context.release(&mut store);
    assert_eq!(store.users.rows.len(), 0);
}

#[test]
fn connection_statements_survive_a_rollback_request() {
    let mut store = Database::new();
    let repository = UserRepository;
    let mut context = QueryContext::begin_connection(&store);
    repository.insert(&context_user("ada"), &mut context).expect("insertion failed");
    context.rollback_if_transaction(&mut store).expect("rollback failed");
    assert_eq!(store.users.rows.len(), 1);
}

#[test]
fn a_transaction_sees_its_own_uncommitted_statements() {
    let mut store = Database::new();
    let repository = UserRepository;
    let mut context = QueryContext::begin_transaction(&store);
    let id = repository.insert(&context_user("ada"), &mut context).expect("insertion failed");
    let found = repository.get_by_id(&id, &mut context).expect("query failed");
    assert!(found.is_some());
    assert_eq!(store.users.rows.len(), 0);
    context.rollback_if_transaction(&mut store).expect("rollback failed");
}

#[test]
fn cross_entity_statements_commit_and_roll_back_together() {
    let mut store = Database::new();
    let user_repository = UserRepository;
    let file_repository = account_backend::file_repository::FileRepository;
    let mut context = QueryContext::begin_transaction(&store);
    let user_id = user_repository
        .insert(&context_user("ada"), &mut context)
        .expect("insertion failed");
    let file = account_backend::model::File {
        id: 0,
        user_id,
        file_created_at: 1_600_000_000,
        mime_type: String::from("text/plain"),
        name: String::from("notes.txt"),
        data: vec![1],
    };
    file_repository.insert(&file, &mut context).expect("insertion failed");
    context.rollback_if_transaction(&mut store).expect("rollback failed");
    assert_eq!(store.users.rows.len(), 0);
    assert_eq!(store.files.rows.len(), 0);
}

#[test]
fn the_create_request_body_builds_an_unassigned_user() {
    let body = CreateUserRequestBody {
        username: String::from("ada"),
        password: String::from("Secret1"),
        email: String::from("a@x.com"),
    };
    let user = body.into_user(1_700_000_000);
    assert_eq!(user.id, 0);
    assert_eq!(user.account_created_at, 1_700_000_000);
    assert_eq!(user.password_reset_at, 1_700_000_000);
    assert_eq!(user.profile_picture_url, String::new());
    assert_eq!(user.username, String::from("ada"));
    assert_eq!(user.password, String::from("Secret1"));
    assert_eq!(user.email, String::from("a@x.com"));
    assert!(!user.email_is_verified);
    assert!(!user.account_is_locked);
}

#[test]
fn the_update_request_body_patches_only_the_provided_user_fields() {
    let mut user = context_user("ada");
    let patch = UpdateUserRequestBody {
        profile_picture_url: None,
        username: Some(String::from("lovelace")),
        password: None,
        email: None,
    };
    patch.apply(&mut user);
    assert_eq!(user.username, String::from("lovelace"));
    assert_eq!(user.password, String::from("pw"));
    assert_eq!(user.email, String::from("ada@example.com"));
    assert_eq!(user.profile_picture_url, String::from("https://pictures.example/default.png"));
}

#[test]
fn the_response_body_projects_the_public_fields() {
    let mut user = context_user("ada");
    user.id = 5;
    let body = GetUserResponseBody::from_user(user);
    assert_eq!(body.id, 5);
    assert_eq!(body.account_created_at, 1_600_000_000);
    assert_eq!(body.username, String::from("ada"));
}

#[test]
fn generated_random_strings_have_the_requested_length() {
    let text = generate_random_string(24);
    assert_eq!(text.chars().count(), 24);
    assert!(text.chars().all(|c| c.is_ascii_alphanumeric()));
}

#[test]
fn two_generated_random_strings_differ() {
    assert_ne!(generate_random_string(24), generate_random_string(24));
}

#[test]
fn map_to_owned_maps_each_element_in_order() {
    let words = vec![String::from("a"), String::from("bb"), String::from("ccc")];
    let lengths = map_to_owned(&words, |w: &String| w.len());
    assert_eq!(lengths, vec![1, 2, 3]);
}

#[test]
fn users_compare_field_by_field() {
    let first = context_user("ada");
    let second = context_user("ada");
    assert_eq!(first, second);
    let mut third = context_user("ada");
    third.email_is_verified = true;
    assert_ne!(first, third);
}

#[test]
fn default_users_are_blank_and_unassigned() {
    let user = User::default();
    assert_eq!(user.id, 0);
    assert_eq!(user.username, String::new());
    assert_eq!(user.password, String::new());
    assert_eq!(user.email, String::new());
    assert!(!user.account_is_banned);
}

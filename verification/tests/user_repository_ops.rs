//! Repository-level tests: the CRUD primitives against an execution
//! context, with no service-level validation involved.

use account_backend::model::User;
use account_backend::store::{Database, QueryContext};
use account_backend::user_repository::UserRepository;

fn repo_user(username: &str, email: &str, password: &str) -> User {
    User {
        id: 0,
        account_created_at: 1_600_000_000,
        password_reset_at: 1_600_000_000,
        profile_picture_url: String::from("https://pictures.example/default.png"),
        username: String::from(username),
        password: String::from(password),
        email: String::from(email),
        email_is_verified: false,
        password_reset_is_required: false,
        account_is_locked: false,
        account_is_banned: false,
    }
}

fn repo_insert(store: &mut Database, user: &User) -> u64 {
    let repository = UserRepository;
    let mut context = QueryContext::begin_connection(store);
    let id = repository.insert(user, &mut context).expect("insertion failed");
    context.release(store);
    id
}

#[test]
fn users_id_is_returned_after_insertion() {
    let mut store = Database::new();
    let id = repo_insert(&mut store, &repo_user("ada", "ada@example.com", "pw"));
    assert!(id > 0);
}

#[test]
fn users_can_be_queried_by_id_after_inserting() {
    let mut store = Database::new();
    let id = repo_insert(&mut store, &repo_user("ada", "ada@example.com", "pw"));
    let repository = UserRepository;
    let mut context = QueryContext::begin_connection(&store);
    let found = repository.get_by_id(&id, &mut context).expect("query failed");
    let found = found.expect("user not found");
    assert_eq!(found.id, id);
    assert_eq!(found.username, String::from("ada"));
}

#[test]
fn querying_a_user_by_id_that_exists_should_return_the_user() {
    let mut store = Database::new();
    let id = repo_insert(&mut store, &repo_user("grace", "grace@example.com", "pw"));
    let repository = UserRepository;
    let mut context = QueryContext::begin_connection(&store);
    let found = repository.get_by_id(&id, &mut context).expect("query failed");
    assert!(found.is_some());
}

#[test]
fn get_by_id_returns_none_for_an_id_that_does_not_exist() {
    let store = Database::new();
    let repository = UserRepository;
    let mut context = QueryContext::begin_connection(&store);
    let found = repository.get_by_id(&42, &mut context).expect("query failed");
    assert!(found.is_none());
}

#[test]
fn querying_a_user_by_id_that_does_not_exist_should_return_none() {
    let mut store = Database::new();
    let id = repo_insert(&mut store, &repo_user("ada", "ada@example.com", "pw"));
    let repository = UserRepository;
    let mut context = QueryContext::begin_connection(&store);
    let found = repository.get_by_id(&(id + 1), &mut context).expect("query failed");
    assert!(found.is_none());
}

#[test]
fn users_can_be_queried_by_username_after_inserting() {
    let mut store = Database::new();
    repo_insert(&mut store, &repo_user("ada", "ada@example.com", "pw"));
    let repository = UserRepository;
    let mut context = QueryContext::begin_connection(&store);
    let found = repository
        .get_by_username(&String::from("ada"), &mut context)
        .expect("query failed");
    let found = found.expect("user not found");
    assert_eq!(found.email, String::from("ada@example.com"));
}

#[test]
fn querying_a_user_by_username_that_exists_should_return_the_user() {
    let mut store = Database::new();
    repo_insert(&mut store, &repo_user("grace", "grace@example.com", "pw"));
    let repository = UserRepository;
    let mut context = QueryContext::begin_connection(&store);
    let found = repository
        .get_by_username(&String::from("grace"), &mut context)
        .expect("query failed");
    assert!(found.is_some());
}

#[test]
fn get_by_username_returns_none_for_a_username_that_does_not_exist() {
    let store = Database::new();
    let repository = UserRepository;
    let mut context = QueryContext::begin_connection(&store);
    let found = repository
        .get_by_username(&String::from("nobody"), &mut context)
        .expect("query failed");
    assert!(found.is_none());
}

#[test]
fn querying_a_user_by_username_that_does_not_exist_should_return_none() {
    let mut store = Database::new();
    repo_insert(&mut store, &repo_user("ada", "ada@example.com", "pw"));
    let repository = UserRepository;
    let mut context = QueryContext::begin_connection(&store);
    let found = repository
        .get_by_username(&String::from("grace"), &mut context)
        .expect("query failed");
    assert!(found.is_none());
}

#[test]
fn users_can_be_queried_by_email_after_inserting() {
    let mut store = Database::new();
    repo_insert(&mut store, &repo_user("ada", "ada@example.com", "pw"));
    let repository = UserRepository;
    let mut context = QueryContext::begin_connection(&store);
    let found = repository
        .get_by_email(&String::from("ada@example.com"), &mut context)
        .expect("query failed");
    let found = found.expect("user not found");
    assert_eq!(found.username, String::from("ada"));
}

#[test]
fn querying_a_user_by_email_that_exists_should_return_the_user() {
    let mut store = Database::new();
    repo_insert(&mut store, &repo_user("grace", "grace@example.com", "pw"));
    let repository = UserRepository;
    let mut context = QueryContext::begin_connection(&store);
    let found = repository
        .get_by_email(&String::from("grace@example.com"), &mut context)
        .expect("query failed");
    assert!(found.is_some());
}

#[test]
fn get_by_email_returns_none_for_an_email_that_does_not_exist() {
    let store = Database::new();
    let repository = UserRepository;
    let mut context = QueryContext::begin_connection(&store);
    let found = repository
        .get_by_email(&String::from("nobody@example.com"), &mut context)
        .expect("query failed");
    assert!(found.is_none());
}

#[test]
fn querying_a_user_by_email_that_does_not_exist_should_return_none() {
    let mut store = Database::new();
    repo_insert(&mut store, &repo_user("ada", "ada@example.com", "pw"));
    let repository = UserRepository;
    let mut context = QueryContext::begin_connection(&store);
    let found = repository
        .get_by_email(&String::from("grace@example.com"), &mut context)
        .expect("query failed");
    assert!(found.is_none());
}

#[test]
fn users_can_be_updated_after_inserting() {
    let mut store = Database::new();
    let id = repo_insert(&mut store, &repo_user("ada", "ada@example.com", "pw"));
    let mut changed = repo_user("ada", "countess@example.com", "pw");
    changed.id = id;
    let repository = UserRepository;
    let mut context = QueryContext::begin_connection(&store);
    let rows = repository.update(&changed, &mut context).expect("update failed");
    assert_eq!(rows, 1);
    context.release(&mut store);
    let mut context = QueryContext::begin_connection(&store);
    let found = repository.get_by_id(&id, &mut context).expect("query failed");
    assert_eq!(found.expect("user not found").email, String::from("countess@example.com"));
}

#[test]
fn updating_a_user_that_does_exist_modifies_their_record() {
    let mut store = Database::new();
    let id = repo_insert(&mut store, &repo_user("ada", "ada@example.com", "pw"));
    let mut changed = repo_user("lovelace", "ada@example.com", "pw");
    changed.id = id;
    let repository = UserRepository;
    let mut context = QueryContext::begin_connection(&store);
    let rows = repository.update(&changed, &mut context).expect("update failed");
    assert_eq!(rows, 1);
    let found = repository.get_by_id(&id, &mut context).expect("query failed");
    assert_eq!(found.expect("user not found").username, String::from("lovelace"));
}

#[test]
fn updating_a_user_that_does_not_exist_modifies_no_records() {
    let store = Database::new();
    let mut absent = repo_user("ada", "ada@example.com", "pw");
    absent.id = 9;
    let repository = UserRepository;
    let mut context = QueryContext::begin_connection(&store);
    let rows = repository.update(&absent, &mut context).expect("update failed");
    assert_eq!(rows, 0);
}

#[test]
fn updating_a_user_that_does_not_exist_does_not_modify_any_records() {
    let mut store = Database::new();
    let id = repo_insert(&mut store, &repo_user("ada", "ada@example.com", "pw"));
    let mut absent = repo_user("grace", "grace@example.com", "pw");
    absent.id = id + 1;
    let repository = UserRepository;
    let mut context = QueryContext::begin_connection(&store);
    let rows = repository.update(&absent, &mut context).expect("update failed");
    assert_eq!(rows, 0);
    let found = repository.get_by_id(&id, &mut context).expect("query failed");
    assert_eq!(found.expect("user not found").username, String::from("ada"));
}

#[test]
fn users_can_be_deleted_after_inserting() {
    let mut store = Database::new();
    let id = repo_insert(&mut store, &repo_user("ada", "ada@example.com", "pw"));
    let repository = UserRepository;
    let mut context = QueryContext::begin_connection(&store);
    let rows = repository.delete(&id, &mut context).expect("deletion failed");
    assert_eq!(rows, 1);
}

#[test]
fn users_cannot_be_queried_after_being_deleted() {
    let mut store = Database::new();
    let id = repo_insert(&mut store, &repo_user("ada", "ada@example.com", "pw"));
    let repository = UserRepository;
    let mut context = QueryContext::begin_connection(&store);
    repository.delete(&id, &mut context).expect("deletion failed");
    context.release(&mut store);
    let mut context = QueryContext::begin_connection(&store);
    let found = repository.get_by_id(&id, &mut context).expect("query failed");
    assert!(found.is_none());
}

#[test]
fn deleting_a_user_that_does_not_exist_deletes_no_records() {
    let store = Database::new();
    let repository = UserRepository;
    let mut context = QueryContext::begin_connection(&store);
    let rows = repository.delete(&7, &mut context).expect("deletion failed");
    assert_eq!(rows, 0);
}

#[test]
fn deleting_a_user_that_does_not_exist_does_not_modify_any_records() {
    let mut store = Database::new();
    let id = repo_insert(&mut store, &repo_user("ada", "ada@example.com", "pw"));
    let repository = UserRepository;
    let mut context = QueryContext::begin_connection(&store);
    let rows = repository.delete(&(id + 5), &mut context).expect("deletion failed");
    assert_eq!(rows, 0);
    let found = repository.get_by_id(&id, &mut context).expect("query failed");
    assert!(found.is_some());
}

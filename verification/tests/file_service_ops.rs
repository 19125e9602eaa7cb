//! File service tests: field validation, CRUD through the service, and
//! the partial-patch request body.

use account_backend::dto::UpdateFileRequestBody;
use account_backend::file_service::FileService;
use account_backend::model::File;
use account_backend::outcome::{DeletionResult, InsertionResult, QueryResult, UpdateResult};
use account_backend::store::Database;

fn service_file(name: &str) -> File {
    File {
        id: 0,
        user_id: 1,
        file_created_at: 1_600_000_000,
        mime_type: String::from("text/plain"),
        name: String::from(name),
        data: vec![104, 105],
    }
}

fn must_insert_file(service: &FileService, store: &mut Database, file: &File) -> File {
    match service.insert(file, store) {
        InsertionResult::Success(stored) => stored,
        InsertionResult::Invalid(errors) => panic!("insertion rejected: {:?}", errors),
        InsertionResult::Failure(error) => panic!("insertion failed: {:?}", error),
    }
}

#[test]
fn file_is_returned_after_insertion() {
    let service = FileService::new();
    let mut store = Database::new();
    let file = service_file("notes.txt");
    let stored = must_insert_file(&service, &mut store, &file);
    assert!(stored.id > 0);
    assert_eq!(stored.user_id, file.user_id);
    assert_eq!(stored.file_created_at, file.file_created_at);
    assert_eq!(stored.mime_type, file.mime_type);
    assert_eq!(stored.name, file.name);
    assert_eq!(stored.data, file.data);
}

#[test]
fn file_is_queryable_after_insertion() {
    let service = FileService::new();
    let mut store = Database::new();
    let stored = must_insert_file(&service, &mut store, &service_file("notes.txt"));
    match service.get(&stored.id, &store) {
        QueryResult::Success(found) => assert_eq!(found, stored),
        _ => panic!("file not found"),
    }
}

#[test]
fn file_is_updatable_after_insertion() {
    let service = FileService::new();
    let mut store = Database::new();
    let mut stored = must_insert_file(&service, &mut store, &service_file("notes.txt"));
    stored.name = String::from("renamed.txt");
    stored.data = vec![1];
    match service.update(&stored, &mut store) {
        UpdateResult::Success(updated) => {
            assert_eq!(updated.name, String::from("renamed.txt"));
            assert_eq!(updated.data, vec![1]);
        },
        _ => panic!("update did not succeed"),
    }
}

#[test]
fn file_is_not_queryable_after_deletion() {
    let service = FileService::new();
    let mut store = Database::new();
    let stored = must_insert_file(&service, &mut store, &service_file("notes.txt"));
    assert!(matches!(service.delete(&stored.id, &mut store), DeletionResult::Success));
    assert!(matches!(service.get(&stored.id, &store), QueryResult::NotFound));
}

#[test]
fn deleting_a_file_that_does_not_exist_returns_not_found() {
    let service = FileService::new();
    let mut store = Database::new();
    assert!(matches!(service.delete(&4, &mut store), DeletionResult::NotFound));
}

#[test]
fn inserting_a_file_with_validation_errors_does_not_succeed() {
    let service = FileService::new();
    let mut store = Database::new();
    let mut invalid = service_file("");
    invalid.mime_type = String::new();
    match service.insert(&invalid, &mut store) {
        InsertionResult::Invalid(errors) => {
            assert_eq!(errors.errors.len(), 2);
            assert_eq!(errors.errors[0].field, String::from("mime_type"));
            assert_eq!(errors.errors[0].code, String::from("length"));
            assert_eq!(errors.errors[1].field, String::from("name"));
            assert_eq!(errors.errors[1].code, String::from("length"));
        },
        _ => panic!("invalid file was not rejected"),
    }
    assert_eq!(store.files.rows.len(), 0);
}

#[test]
fn updating_a_file_with_validation_errors_does_not_succeed() {
    let service = FileService::new();
    let mut store = Database::new();
    let mut stored = must_insert_file(&service, &mut store, &service_file("notes.txt"));
    stored.name = String::from("bad\u{0007}name.txt");
    match service.update(&stored, &mut store) {
        UpdateResult::Invalid(errors) => {
            assert_eq!(errors.errors.len(), 1);
            assert_eq!(errors.errors[0].field, String::from("name"));
            assert_eq!(errors.errors[0].code, String::from("non_control_character"));
        },
        _ => panic!("invalid file was not rejected"),
    }
}

#[test]
fn a_name_longer_than_the_limit_is_rejected() {
    let service = FileService::new();
    let mut store = Database::new();
    let mut invalid = service_file("x");
    invalid.name = "x".repeat(257);
    match service.insert(&invalid, &mut store) {
        InsertionResult::Invalid(errors) => {
            assert_eq!(errors.errors.len(), 1);
            assert_eq!(errors.errors[0].field, String::from("name"));
            assert_eq!(errors.errors[0].code, String::from("length"));
        },
        _ => panic!("overlong name was not rejected"),
    }
}

#[test]
fn a_name_at_the_length_limit_is_accepted() {
    let service = FileService::new();
    let mut store = Database::new();
    let mut file = service_file("x");
    file.name = "x".repeat(256);
    assert!(matches!(service.insert(&file, &mut store), InsertionResult::Success(_)));
}

#[test]
fn updating_a_file_that_does_not_exist_returns_not_found() {
    let service = FileService::new();
    let mut store = Database::new();
    let mut absent = service_file("notes.txt");
    absent.id = 11;
    assert!(matches!(service.update(&absent, &mut store), UpdateResult::NotFound));
}

#[test]
fn the_update_request_body_patches_only_the_provided_fields() {
    let mut file = service_file("notes.txt");
    let patch = UpdateFileRequestBody {
        mime_type: None,
        name: Some(String::from("renamed.txt")),
        data: Some(vec![5, 6]),
    };
    patch.apply(&mut file);
    assert_eq!(file.mime_type, String::from("text/plain"));
    assert_eq!(file.name, String::from("renamed.txt"));
    assert_eq!(file.data, vec![5, 6]);
}

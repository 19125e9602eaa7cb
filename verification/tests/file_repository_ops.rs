//! Repository-level tests for file records.

use account_backend::file_repository::FileRepository;
use account_backend::model::File;
use account_backend::store::{Database, QueryContext};

fn repo_file(name: &str) -> File {
    File {
        id: 0,
        user_id: 1,
        file_created_at: 1_600_000_000,
        mime_type: String::from("text/plain"),
        name: String::from(name),
        data: vec![1, 2, 3, 4],
    }
}

#[test]
fn file_id_is_returned_after_insertion() {
    let mut store = Database::new();
    let repository = FileRepository;
    let mut context = QueryContext::begin_connection(&store);
    let id = repository.insert(&repo_file("notes.txt"), &mut context).expect("insertion failed");
    assert!(id > 0);
    context.release(&mut store);
}

#[test]
fn test_file_is_queryable_after_insertion() {
    let mut store = Database::new();
    let repository = FileRepository;
    let mut context = QueryContext::begin_connection(&store);
    let id = repository.insert(&repo_file("notes.txt"), &mut context).expect("insertion failed");
    context.release(&mut store);
    let mut context = QueryContext::begin_connection(&store);
    let found = repository.get(&id, &mut context).expect("query failed");
    let found = found.expect("file not found");
    assert_eq!(found.name, String::from("notes.txt"));
    assert_eq!(found.data, vec![1, 2, 3, 4]);
}

#[test]
fn test_file_is_updatable_after_insertion() {
    let mut store = Database::new();
    let repository = FileRepository;
    let mut context = QueryContext::begin_connection(&store);
    let id = repository.insert(&repo_file("notes.txt"), &mut context).expect("insertion failed");
    let mut changed = repo_file("renamed.txt");
    changed.id = id;
    changed.data = vec![9];
    let rows = repository.update(&changed, &mut context).expect("update failed");
    assert_eq!(rows, 1);
    let found = repository.get(&id, &mut context).expect("query failed");
    let found = found.expect("file not found");
    assert_eq!(found.name, String::from("renamed.txt"));
    assert_eq!(found.data, vec![9]);
}

#[test]
fn test_file_is_not_queryable_after_deletion() {
    let mut store = Database::new();
    let repository = FileRepository;
    let mut context = QueryContext::begin_connection(&store);
    let id = repository.insert(&repo_file("notes.txt"), &mut context).expect("insertion failed");
    let rows = repository.delete(&id, &mut context).expect("deletion failed");
    assert_eq!(rows, 1);
    let found = repository.get(&id, &mut context).expect("query failed");
    assert!(found.is_none());
}

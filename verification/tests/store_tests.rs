use user_service::model::DbError;
use user_service::model::Filter;
use user_service::model::User;
use user_service::store::UserStore;

fn user(id: &str, first: &str, last: &str, username: &str, email: &str) -> User {
    User {
        id: id.to_string(),
        first_name: first.to_string(),
        last_name: last.to_string(),
        username: username.to_string(),
        email: email.to_string(),
    }
}

#[test]
fn create_then_get_returns_identical_fields() {
    let mut store = UserStore::new();
    store.create_user(user("u-1", "Ada", "Lovelace", "ada", "ada@example.com"));
    let got = store.get_user(&"u-1".to_string()).unwrap();
    assert_eq!(got.id, "u-1");
    assert_eq!(got.first_name, "Ada");
    assert_eq!(got.last_name, "Lovelace");
    assert_eq!(got.username, "ada");
    assert_eq!(got.email, "ada@example.com");
}

#[test]
fn get_missing_id_is_an_error() {
    let store = UserStore::new();
    let r = store.get_user(&"absent".to_string());
    assert!(matches!(r, Err(DbError::NotFound)));
}

#[test]
fn list_after_creating_n_users_contains_all_of_them() {
    let mut store = UserStore::new();
    store.create_user(user("a", "A", "A", "a", "a@x"));
    store.create_user(user("b", "B", "B", "b", "b@x"));
    store.create_user(user("c", "C", "C", "c", "c@x"));
    let all = store.get_all_users();
    assert_eq!(all.len(), 3);
    assert!(all.iter().any(|u| u.id == "a"));
    assert!(all.iter().any(|u| u.id == "b"));
    assert!(all.iter().any(|u| u.id == "c"));
}

#[test]
fn update_overwrites_every_field_and_reads_reflect_new_values() {
    let mut store = UserStore::new();
    store.create_user(user("u-2", "Old", "Name", "old", "old@x"));
    let updated = store
        .update_user(
            &"u-2".to_string(),
            user("u-2", "New", "Values", "new", "new@x"),
            &"u-2".to_string(),
        )
        .unwrap();
    assert_eq!(updated.first_name, "New");
    assert_eq!(updated.last_name, "Values");
    assert_eq!(updated.username, "new");
    assert_eq!(updated.email, "new@x");
    let again = store.get_user(&"u-2".to_string()).unwrap();
    assert_eq!(again.first_name, "New");
    assert_eq!(again.username, "new");
}

#[test]
fn update_of_missing_id_changes_nothing_and_readback_fails() {
    let mut store = UserStore::new();
    store.create_user(user("kept", "K", "K", "k", "k@x"));
    let r = store.update_user(
        &"absent".to_string(),
        user("absent", "X", "X", "x", "x@x"),
        &"absent".to_string(),
    );
    assert!(matches!(r, Err(DbError::NotFound)));
    assert_eq!(store.get_all_users().len(), 1);
}

#[test]
fn delete_removes_and_subsequent_read_fails() {
    let mut store = UserStore::new();
    store.create_user(user("gone", "G", "G", "g", "g@x"));
    let ack = store.delete_user(&"gone".to_string());
    assert_eq!(ack.deleted_count, 1);
    assert!(matches!(store.get_user(&"gone".to_string()), Err(DbError::NotFound)));
}

#[test]
fn delete_of_missing_id_counts_zero_and_is_no_error() {
    let mut store = UserStore::new();
    let ack = store.delete_user(&"absent".to_string());
    assert_eq!(ack.deleted_count, 0);
}

#[test]
fn delete_with_duplicate_ids_removes_only_the_first() {
    let mut store = UserStore::new();
    store.create_user(user("dup", "First", "F", "f", "f@x"));
    store.create_user(user("dup", "Second", "S", "s", "s@x"));
    let ack = store.delete_user(&"dup".to_string());
    assert_eq!(ack.deleted_count, 1);
    let left = store.get_user(&"dup".to_string()).unwrap();
    assert_eq!(left.first_name, "Second");
}

#[test]
fn search_matches_on_the_named_field_only() {
    let mut store = UserStore::new();
    store.create_user(user("1", "Ann", "Smith", "ann", "ann@x"));
    store.create_user(user("2", "Bob", "Smith", "bob", "bob@x"));
    store.create_user(user("3", "Ann", "Jones", "annj", "annj@x"));
    let by_last = store.search_users(&Filter {
        filter_field: "last_name".to_string(),
        filter_key: "Smith".to_string(),
    });
    assert_eq!(by_last.len(), 2);
    assert_eq!(by_last[0].id, "1");
    assert_eq!(by_last[1].id, "2");
    let by_first = store.search_users(&Filter {
        filter_field: "first_name".to_string(),
        filter_key: "Ann".to_string(),
    });
    assert_eq!(by_first.len(), 2);
}

#[test]
fn search_on_unknown_field_matches_nothing() {
    let mut store = UserStore::new();
    store.create_user(user("1", "Ann", "Smith", "ann", "ann@x"));
    let r = store.search_users(&Filter {
        filter_field: "password".to_string(),
        filter_key: "Ann".to_string(),
    });
    assert!(r.is_empty());
}

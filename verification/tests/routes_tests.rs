use user_service::model::Claims;
use user_service::model::Filter;
use user_service::model::User;
use user_service::routes;
use user_service::store::UserStore;

fn req_user(first: &str, last: &str, username: &str, email: &str) -> User {
    User {
        id: String::new(),
        first_name: first.to_string(),
        last_name: last.to_string(),
        username: username.to_string(),
        email: email.to_string(),
    }
}

#[test]
fn index_is_always_alive() {
    let r = routes::index();
    assert_eq!(r.status, 200);
    assert_eq!(r.body, "Rust microservice alive!");
}

#[test]
fn create_then_get_round_trip_through_the_routes() {
    let mut store = UserStore::new();
    let created = routes::create_user(&mut store, &req_user("A", "B", "ab", "a@b.com"));
    assert_eq!(created.status, 200);
    assert!(created.body.starts_with("{\"insertedId\":\""));
    let id = created
        .body
        .strip_prefix("{\"insertedId\":\"")
        .unwrap()
        .strip_suffix("\"}")
        .unwrap()
        .to_string();
    assert_eq!(id.len(), 36);
    let got = routes::get_user(&store, &id, &"Bearer abcdef".to_string());
    assert_eq!(got.status, 200);
    let expected = format!(
        "{{\"id\":\"{}\",\"first_name\":\"A\",\"last_name\":\"B\",\"username\":\"ab\",\"email\":\"a@b.com\"}}",
        id
    );
    assert_eq!(got.body, expected);
}

#[test]
fn created_ids_are_distinct() {
    let mut store = UserStore::new();
    routes::create_user(&mut store, &req_user("A", "A", "a", "a@x"));
    routes::create_user(&mut store, &req_user("B", "B", "b", "b@x"));
    let all = store.get_all_users();
    assert_eq!(all.len(), 2);
    assert_ne!(all[0].id, all[1].id);
    assert!(!all[0].id.is_empty());
}

#[test]
fn get_with_bare_scheme_prefix_fails_authorization() {
    let mut store = UserStore::new();
    routes::create_user(&mut store, &req_user("A", "A", "a", "a@x"));
    let id = store.get_all_users()[0].id.clone();
    let r = routes::get_user(&store, &id, &"Bearer ".to_string());
    assert_eq!(r.status, 500);
    assert_eq!(r.body, "authorization failed");
}

#[test]
fn get_missing_user_answers_500_with_the_error_text() {
    let store = UserStore::new();
    let r = routes::get_user(&store, &"nobody".to_string(), &"Bearer abc".to_string());
    assert_eq!(r.status, 500);
    assert_eq!(r.body, "not found");
}

#[test]
fn update_route_overwrites_and_returns_the_new_document() {
    let mut store = UserStore::new();
    routes::create_user(&mut store, &req_user("Old", "Old", "old", "old@x"));
    let id = store.get_all_users()[0].id.clone();
    let replacement = User {
        id: id.clone(),
        first_name: "New".to_string(),
        last_name: "Values".to_string(),
        username: "new".to_string(),
        email: "new@x".to_string(),
    };
    let r = routes::update_user(&mut store, &replacement);
    assert_eq!(r.status, 200);
    assert!(r.body.contains("\"first_name\":\"New\""));
    let read = routes::get_user(&store, &id, &"Bearer t".to_string());
    assert!(read.body.contains("\"username\":\"new\""));
    assert!(!read.body.contains("old"));
}

#[test]
fn update_route_on_missing_id_answers_500() {
    let mut store = UserStore::new();
    let ghost = User {
        id: "missing".to_string(),
        first_name: "X".to_string(),
        last_name: "X".to_string(),
        username: "x".to_string(),
        email: "x@x".to_string(),
    };
    let r = routes::update_user(&mut store, &ghost);
    assert_eq!(r.status, 500);
    assert_eq!(r.body, "not found");
}

#[test]
fn list_route_returns_every_document_as_json() {
    let mut store = UserStore::new();
    let empty = routes::get_all_users(&store);
    assert_eq!(empty.status, 200);
    assert_eq!(empty.body, "[]");
    routes::create_user(&mut store, &req_user("A", "A", "a", "a@x"));
    routes::create_user(&mut store, &req_user("B", "B", "b", "b@x"));
    let r = routes::get_all_users(&store);
    assert_eq!(r.status, 200);
    assert!(r.body.contains("\"username\":\"a\""));
    assert!(r.body.contains("\"username\":\"b\""));
}

#[test]
fn delete_route_acknowledges_the_count() {
    let mut store = UserStore::new();
    routes::create_user(&mut store, &req_user("A", "A", "a", "a@x"));
    let id = store.get_all_users()[0].id.clone();
    let r = routes::delete_user(&mut store, &id);
    assert_eq!(r.status, 200);
    assert_eq!(r.body, "{\"deletedCount\":1}");
    let r2 = routes::delete_user(&mut store, &id);
    assert_eq!(r2.status, 200);
    assert_eq!(r2.body, "{\"deletedCount\":0}");
    let read = routes::get_user(&store, &id, &"Bearer t".to_string());
    assert_eq!(read.status, 500);
}

#[test]
fn search_route_filters_by_the_named_field() {
    let mut store = UserStore::new();
    routes::create_user(&mut store, &req_user("Ann", "Smith", "ann", "ann@x"));
    routes::create_user(&mut store, &req_user("Bob", "Jones", "bob", "bob@x"));
    let r = routes::search_users(
        &store,
        &Filter { filter_field: "username".to_string(), filter_key: "bob".to_string() },
    );
    assert_eq!(r.status, 200);
    assert!(r.body.contains("\"first_name\":\"Bob\""));
    assert!(!r.body.contains("Ann"));
}

#[test]
fn token_route_answers_200_with_a_json_string_token() {
    let r = routes::create_jwt_token(Claims {
        username: "alice".to_string(),
        password: "x".to_string(),
    });
    assert_eq!(r.status, 200);
    assert!(r.body.starts_with('"') && r.body.ends_with('"'));
    let token = r.body.trim_matches('"').to_string();
    let data = jsonwebtoken::decode::<serde_json::Value>(
        &token,
        &jsonwebtoken::DecodingKey::from_secret(b"secret"),
        &jsonwebtoken::Validation::new(jsonwebtoken::Algorithm::HS512),
    )
    .unwrap();
    assert_eq!(data.claims.get("id").and_then(|v| v.as_str()), Some("alice"));
    assert_eq!(data.claims.get("pass").and_then(|v| v.as_str()), Some("x"));
}

use users_service::handlers::{
    handle_create_user, handle_delete_user, handle_get_user, handle_list_users,
    handle_update_user,
};
use users_service::table::UsersTable;
use users_service::user::{CreateUserReq, UpdateUserReq};

fn parse(body: &str) -> serde_json::Value {
    serde_json::from_str(body).expect("every envelope is valid JSON")
}

#[test]
fn create_then_get_returns_created_user() {
    let mut t = UsersTable::new();
    let (code, body) = handle_create_user(
        &mut t,
        CreateUserReq { name: "Alice".to_owned(), age: Some(30) },
    );
    assert_eq!(code, 201);
    let v = parse(&body);
    assert_eq!(v["success"], serde_json::Value::Bool(true));
    assert!(v["data"]["user_id"].is_number());
    let id = v["data"]["user_id"].as_i64().unwrap() as i32;

    let (code, body) = handle_get_user(&t, id);
    assert_eq!(code, 200);
    let v = parse(&body);
    assert_eq!(v["data"]["name"].as_str().unwrap(), "Alice");
    assert_eq!(v["data"]["age"].as_i64().unwrap(), 30);
    assert_eq!(v["data"]["user_id"].as_i64().unwrap() as i32, id);
}

#[test]
fn list_after_two_creates_is_ordered_by_ascending_id() {
    let mut t = UsersTable::new();
    let (_, body1) = handle_create_user(
        &mut t,
        CreateUserReq { name: "Alice".to_owned(), age: Some(30) },
    );
    let (_, body2) = handle_create_user(
        &mut t,
        CreateUserReq { name: "Bob".to_owned(), age: None },
    );
    let id1 = parse(&body1)["data"]["user_id"].as_i64().unwrap();
    let id2 = parse(&body2)["data"]["user_id"].as_i64().unwrap();
    assert!(id1 < id2);

    let (code, body) = handle_list_users(&t);
    assert_eq!(code, 200);
    let v = parse(&body);
    let data = v["data"].as_array().unwrap();
    assert_eq!(data.len(), 2);
    assert_eq!(data[0]["user_id"].as_i64().unwrap(), id1);
    assert_eq!(data[0]["name"].as_str().unwrap(), "Alice");
    assert_eq!(data[1]["user_id"].as_i64().unwrap(), id2);
    assert_eq!(data[1]["name"].as_str().unwrap(), "Bob");
    assert!(data[1]["age"].is_null());
}

#[test]
fn update_with_age_only_changes_age_and_keeps_name() {
    let mut t = UsersTable::new();
    let (_, body) = handle_create_user(
        &mut t,
        CreateUserReq { name: "Alice".to_owned(), age: Some(30) },
    );
    let id = parse(&body)["data"]["user_id"].as_i64().unwrap() as i32;

    let (code, body) = handle_update_user(
        &mut t,
        id,
        &UpdateUserReq { name: None, age: Some(40) },
    );
    assert_eq!(code, 200);
    assert_eq!(body, "{\"success\":true}");

    let (code, body) = handle_get_user(&t, id);
    assert_eq!(code, 200);
    let v = parse(&body);
    assert_eq!(v["data"]["name"].as_str().unwrap(), "Alice");
    assert_eq!(v["data"]["age"].as_i64().unwrap(), 40);
}

#[test]
fn update_with_empty_body_succeeds_and_changes_nothing() {
    let mut t = UsersTable::new();
    let (_, body) = handle_create_user(
        &mut t,
        CreateUserReq { name: "Alice".to_owned(), age: Some(30) },
    );
    let id = parse(&body)["data"]["user_id"].as_i64().unwrap() as i32;
    let (_, before) = handle_list_users(&t);

    let (code, body) = handle_update_user(&mut t, id, &UpdateUserReq { name: None, age: None });
    assert_eq!(code, 200);
    assert_eq!(body, "{\"success\":true}");

    let (_, after) = handle_list_users(&t);
    assert_eq!(before, after);
}

#[test]
fn delete_of_missing_id_still_returns_success() {
    let mut t = UsersTable::new();
    let (_, _) = handle_create_user(
        &mut t,
        CreateUserReq { name: "Alice".to_owned(), age: Some(30) },
    );
    let (_, before) = handle_list_users(&t);

    let (code, body) = handle_delete_user(&mut t, 424242);
    assert_eq!(code, 200);
    assert_eq!(body, "{\"success\":true}");

    let (_, after) = handle_list_users(&t);
    assert_eq!(before, after);
}

#[test]
fn get_of_missing_id_returns_500_not_404() {
    // Recorded quirk: the no-rows condition takes the generic failure path.
    let t = UsersTable::new();
    let (code, body) = handle_get_user(&t, 7);
    assert_eq!(code, 500);
    let v = parse(&body);
    assert_eq!(v["success"], serde_json::Value::Bool(false));
    assert_eq!(
        v["message"].as_str().unwrap(),
        "no rows returned by a query that expected to return at least one row"
    );
}

#[test]
fn round_trip_create_get_update_get_delete_get() {
    let mut t = UsersTable::new();

    let (code, body) = handle_create_user(
        &mut t,
        CreateUserReq { name: "Alice".to_owned(), age: Some(30) },
    );
    assert_eq!(code, 201);
    let id = parse(&body)["data"]["user_id"].as_i64().unwrap() as i32;

    let (code, body) = handle_get_user(&t, id);
    assert_eq!(code, 200);
    assert_eq!(parse(&body)["data"]["age"].as_i64().unwrap(), 30);

    let (code, _) = handle_update_user(&mut t, id, &UpdateUserReq { name: None, age: Some(40) });
    assert_eq!(code, 200);

    let (code, body) = handle_get_user(&t, id);
    assert_eq!(code, 200);
    let v = parse(&body);
    assert_eq!(v["data"]["name"].as_str().unwrap(), "Alice");
    assert_eq!(v["data"]["age"].as_i64().unwrap(), 40);

    let (code, body) = handle_delete_user(&mut t, id);
    assert_eq!(code, 200);
    assert_eq!(body, "{\"success\":true}");

    // The second get fails, per the recorded quirk: 500, not 404.
    let (code, body) = handle_get_user(&t, id);
    assert_eq!(code, 500);
    assert_eq!(parse(&body)["success"], serde_json::Value::Bool(false));
}

#[test]
fn delete_is_idempotent() {
    let mut t = UsersTable::new();
    let (_, body) = handle_create_user(
        &mut t,
        CreateUserReq { name: "Alice".to_owned(), age: None },
    );
    let id = parse(&body)["data"]["user_id"].as_i64().unwrap() as i32;

    let (code1, body1) = handle_delete_user(&mut t, id);
    let (_, listed_once) = handle_list_users(&t);
    let (code2, body2) = handle_delete_user(&mut t, id);
    let (_, listed_twice) = handle_list_users(&t);

    assert_eq!(code1, 200);
    assert_eq!(code2, 200);
    assert_eq!(body1, body2);
    assert_eq!(listed_once, listed_twice);
}

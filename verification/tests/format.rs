use users_service::config::{
    pool_acquire_timeout_secs, pool_max_connections, root_message, server_address_or_default,
};
use users_service::handlers::{db_error_response, created_response, list_response, user_response};
use users_service::json::{i32_to_string, json_escape, u32_to_string, user_envelope};
use users_service::sql::{
    delete_user_query, insert_user_query, select_all_users_query, select_user_query,
    update_bind_values, update_user_query, SqlValue,
};
use users_service::user::{UpdateUserReq, User};

#[test]
fn decimal_rendering_exact_values() {
    assert_eq!(u32_to_string(0), "0");
    assert_eq!(u32_to_string(7), "7");
    assert_eq!(u32_to_string(30), "30");
    assert_eq!(u32_to_string(4294967295), "4294967295");
    assert_eq!(i32_to_string(0), "0");
    assert_eq!(i32_to_string(42), "42");
    assert_eq!(i32_to_string(-1), "-1");
    assert_eq!(i32_to_string(-2147483648), "-2147483648");
    assert_eq!(i32_to_string(2147483647), "2147483647");
}

#[test]
fn json_escaping_exact_values() {
    assert_eq!(json_escape("plain"), "plain");
    assert_eq!(json_escape("say \"hi\""), "say \\\"hi\\\"");
    assert_eq!(json_escape("a\\b"), "a\\\\b");
    assert_eq!(json_escape("line\nbreak"), "line\\nbreak");
    assert_eq!(json_escape("tab\there"), "tab\\there");
    assert_eq!(json_escape("\r\u{8}\u{c}"), "\\r\\b\\f");
    assert_eq!(json_escape("\u{1}\u{1f}"), "\\u0001\\u001f");
    assert_eq!(json_escape("café"), "café");
}

#[test]
fn escaped_names_round_trip_through_a_json_parser() {
    let u = User {
        user_id: 5,
        name: "A \"quoted\"\nname with \\ and \u{3}".to_owned(),
        age: None,
    };
    let body = user_envelope(&u);
    let v: serde_json::Value = serde_json::from_str(&body).expect("envelope is valid JSON");
    assert_eq!(
        v["data"]["name"].as_str().unwrap(),
        "A \"quoted\"\nname with \\ and \u{3}"
    );
    assert!(v["data"]["age"].is_null());
}

#[test]
fn fixed_queries_are_verbatim() {
    assert_eq!(select_all_users_query(), "SELECT * FROM users ORDER BY user_id");
    assert_eq!(select_user_query(), "SELECT * FROM users WHERE user_id = $1");
    assert_eq!(
        insert_user_query(),
        "INSERT INTO users (name, age) VALUES ($1, $2) RETURNING user_id"
    );
    assert_eq!(delete_user_query(), "DELETE FROM public.users WHERE user_id = $1");
}

#[test]
fn update_query_covers_all_field_combinations() {
    assert_eq!(
        update_user_query(false, false),
        "UPDATE public.users SET user_id = $1 WHERE user_id = $1"
    );
    assert_eq!(
        update_user_query(true, false),
        "UPDATE public.users SET user_id = $1, name = $2 WHERE user_id = $1"
    );
    assert_eq!(
        update_user_query(false, true),
        "UPDATE public.users SET user_id = $1, age = $2 WHERE user_id = $1"
    );
    assert_eq!(
        update_user_query(true, true),
        "UPDATE public.users SET user_id = $1, name = $2, age = $3 WHERE user_id = $1"
    );
}

#[test]
fn response_envelopes_exact_strings() {
    let (code, body) = created_response(12);
    assert_eq!(code, 201);
    assert_eq!(body, "{\"success\":true,\"data\":{\"user_id\":12}}");

    let alice = User { user_id: 1, name: "Alice".to_owned(), age: Some(30) };
    let (code, body) = user_response(&alice);
    assert_eq!(code, 200);
    assert_eq!(
        body,
        "{\"success\":true,\"data\":{\"user_id\":1,\"name\":\"Alice\",\"age\":30}}"
    );

    let bob = User { user_id: 2, name: "Bob".to_owned(), age: None };
    let rows = vec![alice, bob];
    let (code, body) = list_response(&rows);
    assert_eq!(code, 200);
    assert_eq!(
        body,
        "{\"success\":true,\"data\":[{\"user_id\":1,\"name\":\"Alice\",\"age\":30},{\"user_id\":2,\"name\":\"Bob\",\"age\":null}]}"
    );

    let empty: Vec<User> = vec![];
    let (_, body) = list_response(&empty);
    assert_eq!(body, "{\"success\":true,\"data\":[]}");
}

#[test]
fn db_error_response_embeds_the_error_text() {
    let (code, body) = db_error_response("connection refused");
    assert_eq!(code, 500);
    assert_eq!(body, "{\"success\":false,\"message\":\"connection refused\"}");
    let v: serde_json::Value = serde_json::from_str(&body).unwrap();
    assert_eq!(v["success"], serde_json::Value::Bool(false));
    assert_eq!(v["message"].as_str().unwrap(), "connection refused");
}

#[test]
fn configuration_defaults() {
    assert_eq!(server_address_or_default(None), "127.0.0.1:3000");
    assert_eq!(
        server_address_or_default(Some("0.0.0.0:8080".to_owned())),
        "0.0.0.0:8080"
    );
    assert_eq!(pool_max_connections(), 10);
    assert_eq!(pool_acquire_timeout_secs(), 5);
    assert_eq!(root_message(), "Up and Running");
}

#[test]
fn update_bind_values_follow_placeholder_order() {
    let plan = update_bind_values(9, UpdateUserReq { name: None, age: None });
    assert_eq!(plan.len(), 1);
    assert!(matches!(plan[0], SqlValue::IntVal(9)));

    let plan = update_bind_values(
        9,
        UpdateUserReq { name: Some("Alice".to_owned()), age: Some(40) },
    );
    assert_eq!(plan.len(), 3);
    assert!(matches!(plan[0], SqlValue::IntVal(9)));
    assert!(matches!(plan[1], SqlValue::TextVal(ref n) if n == "Alice"));
    assert!(matches!(plan[2], SqlValue::IntVal(40)));

    let plan = update_bind_values(9, UpdateUserReq { name: None, age: Some(40) });
    assert_eq!(plan.len(), 2);
    assert!(matches!(plan[1], SqlValue::IntVal(40)));

    let plan = update_bind_values(9, UpdateUserReq { name: Some("Bo".to_owned()), age: None });
    assert_eq!(plan.len(), 2);
    assert!(matches!(plan[1], SqlValue::TextVal(ref n) if n == "Bo"));
}

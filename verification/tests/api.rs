use backend::handlers::{hello_response, list_response};
use backend::model::{Project, Task, User};
use backend::routes::{route_of, route_status, Route};

fn user(id: i32, name: &str, email: &str) -> User {
    User {
        id,
        name: name.to_string(),
        email: email.to_string(),
        created_at: "2024-01-01T00:00:00Z".to_string(),
        updated_at: "2024-01-02T00:00:00Z".to_string(),
    }
}

fn project(id: i32, name: &str, description: Option<&str>, user_id: i32) -> Project {
    Project {
        id,
        name: name.to_string(),
        description: description.map(|s| s.to_string()),
        user_id,
        created_at: "2024-01-01T00:00:00Z".to_string(),
        updated_at: "2024-01-02T00:00:00Z".to_string(),
    }
}

fn task(id: i32, title: &str, description: Option<&str>, assigned_user_id: Option<i32>) -> Task {
    Task {
        id,
        title: title.to_string(),
        description: description.map(|s| s.to_string()),
        status: "open".to_string(),
        project_id: 7,
        assigned_user_id,
        created_at: "2024-01-01T00:00:00Z".to_string(),
        updated_at: "2024-01-02T00:00:00Z".to_string(),
    }
}

#[test]
fn hello_is_the_fixed_greeting() {
    assert_eq!(hello_response(), "{\"message\":\"Hello from Rust backend!\"}");
}

#[test]
fn empty_users_table_serves_empty_array() {
    let body = list_response::<User>(Some(vec![]));
    assert_eq!(body, "[]");
}

#[test]
fn failed_query_serves_empty_array() {
    assert_eq!(list_response::<User>(None), "[]");
    assert_eq!(list_response::<Project>(None), "[]");
    assert_eq!(list_response::<Task>(None), "[]");
}

#[test]
fn failure_indistinguishable_from_empty_table() {
    assert_eq!(list_response::<User>(None), list_response::<User>(Some(vec![])));
}

#[test]
fn users_serve_ordered_ascending_by_id() {
    let rows = vec![
        user(3, "c", "c@example.com"),
        user(1, "a", "a@example.com"),
        user(2, "b", "b@example.com"),
    ];
    let body = list_response(Some(rows));
    assert_eq!(
        body,
        "[\
        {\"id\":1,\"name\":\"a\",\"email\":\"a@example.com\",\
        \"created_at\":\"2024-01-01T00:00:00Z\",\"updated_at\":\"2024-01-02T00:00:00Z\"},\
        {\"id\":2,\"name\":\"b\",\"email\":\"b@example.com\",\
        \"created_at\":\"2024-01-01T00:00:00Z\",\"updated_at\":\"2024-01-02T00:00:00Z\"},\
        {\"id\":3,\"name\":\"c\",\"email\":\"c@example.com\",\
        \"created_at\":\"2024-01-01T00:00:00Z\",\"updated_at\":\"2024-01-02T00:00:00Z\"}\
        ]"
    );
}

#[test]
fn single_user_serializes_exactly() {
    let body = list_response(Some(vec![user(42, "Ada", "ada@example.com")]));
    assert_eq!(
        body,
        "[{\"id\":42,\"name\":\"Ada\",\"email\":\"ada@example.com\",\
        \"created_at\":\"2024-01-01T00:00:00Z\",\"updated_at\":\"2024-01-02T00:00:00Z\"}]"
    );
}

#[test]
fn negative_id_serializes_with_minus_sign() {
    let body = list_response(Some(vec![user(-5, "n", "n@example.com")]));
    assert!(body.starts_with("[{\"id\":-5,"));
}

#[test]
fn null_project_description_serializes_as_null() {
    let body = list_response(Some(vec![project(1, "p", None, 9)]));
    assert_eq!(
        body,
        "[{\"id\":1,\"name\":\"p\",\"description\":null,\"user_id\":9,\
        \"created_at\":\"2024-01-01T00:00:00Z\",\"updated_at\":\"2024-01-02T00:00:00Z\"}]"
    );
}

#[test]
fn present_project_description_serializes_as_its_value() {
    let body = list_response(Some(vec![project(1, "p", Some("does things"), 9)]));
    assert_eq!(
        body,
        "[{\"id\":1,\"name\":\"p\",\"description\":\"does things\",\"user_id\":9,\
        \"created_at\":\"2024-01-01T00:00:00Z\",\"updated_at\":\"2024-01-02T00:00:00Z\"}]"
    );
}

#[test]
fn task_nullable_fields_serialize_as_null_when_unset() {
    let body = list_response(Some(vec![task(1, "t", None, None)]));
    assert_eq!(
        body,
        "[{\"id\":1,\"title\":\"t\",\"description\":null,\"status\":\"open\",\
        \"project_id\":7,\"assigned_user_id\":null,\
        \"created_at\":\"2024-01-01T00:00:00Z\",\"updated_at\":\"2024-01-02T00:00:00Z\"}]"
    );
}

#[test]
fn task_nullable_fields_serialize_as_values_when_set() {
    let body = list_response(Some(vec![task(1, "t", Some("d"), Some(3))]));
    assert_eq!(
        body,
        "[{\"id\":1,\"title\":\"t\",\"description\":\"d\",\"status\":\"open\",\
        \"project_id\":7,\"assigned_user_id\":3,\
        \"created_at\":\"2024-01-01T00:00:00Z\",\"updated_at\":\"2024-01-02T00:00:00Z\"}]"
    );
}

#[test]
fn text_fields_are_json_escaped() {
    let body = list_response(Some(vec![user(1, "a\"b\\c\nd", "e@example.com")]));
    assert!(body.contains("\"name\":\"a\\\"b\\\\c\\nd\""));
    let control = list_response(Some(vec![user(1, "x\u{01}y", "e@example.com")]));
    assert!(control.contains("\"name\":\"x\\u0001y\""));
}

#[test]
fn list_endpoints_are_independent() {
    let users_alone = list_response(Some(vec![user(1, "a", "a@example.com")]));
    let projects_alone = list_response(Some(vec![project(2, "p", None, 1)]));
    let tasks_alone = list_response(Some(vec![task(3, "t", None, None)]));
    let users_again = list_response(Some(vec![user(1, "a", "a@example.com")]));
    let projects_again = list_response(Some(vec![project(2, "p", None, 1)]));
    let tasks_again = list_response(Some(vec![task(3, "t", None, None)]));
    assert_eq!(users_alone, users_again);
    assert_eq!(projects_alone, projects_again);
    assert_eq!(tasks_alone, tasks_again);
    assert_ne!(users_alone, projects_alone);
    assert_ne!(projects_alone, tasks_alone);
}

#[test]
fn routes_dispatch_exactly() {
    assert_eq!(route_of("GET", "/api/hello"), Route::Hello);
    assert_eq!(route_of("GET", "/api/users"), Route::Users);
    assert_eq!(route_of("GET", "/api/projects"), Route::Projects);
    assert_eq!(route_of("GET", "/api/tasks"), Route::Tasks);
}

#[test]
fn unmatched_route_is_404() {
    assert_eq!(route_of("GET", "/api/unknown"), Route::NotFound);
    assert_eq!(route_of("POST", "/api/users"), Route::NotFound);
    assert_eq!(route_of("GET", "/api/users/"), Route::NotFound);
    assert_eq!(route_status(Route::NotFound), 404);
}

#[test]
fn matched_routes_answer_200() {
    assert_eq!(route_status(Route::Hello), 200);
    assert_eq!(route_status(Route::Users), 200);
    assert_eq!(route_status(Route::Projects), 200);
    assert_eq!(route_status(Route::Tasks), 200);
}

//! The conformance suite, run against the in-memory service.

use tasks_harness::http::{create_task_request, Method, Request, Response, NOT_FOUND};
use tasks_harness::service::TaskService;
use tasks_harness::task::{tasks_from_text, Task, TaskError, TaskRequest};

const BASE_URL: &str = "http://localhost:8080/api";

fn service() -> TaskService {
    TaskService::new(BASE_URL)
}

fn request(header: Option<(&str, &str)>, uri: String, method: &str, body: &str) -> Request {
    let method = match method {
        "POST" => Method::Post,
        "GET" => Method::Get,
        other => panic!("unsupported method {}", other),
    };
    let content_type = match header {
        Some(("Content-Type", value)) => Some(value.to_string()),
        Some((name, _)) => panic!("unsupported header {}", name),
        None => None,
    };
    Request { method, url: uri, content_type, body: body.to_string() }
}

fn send(service: &mut TaskService, request: Request) -> Response {
    service.handle(&request)
}

fn get(service: &mut TaskService, uri: String) -> Response {
    send(service, request(None, uri, "GET", ""))
}

fn create_new_task(service: &mut TaskService, name: Option<String>, done: Option<bool>) -> Task {
    let request_json = TaskRequest { name, done };
    let json_string = request_json.to_json();
    let request_json = create_task_request(&json_string);
    let response = send(service, request_json);
    Task::from_text(&response.body).unwrap()
}

fn get_all_tasks(service: &mut TaskService) -> Vec<Task> {
    let response = get(service, format!("{}/tasks", BASE_URL));
    tasks_from_text(&response.body).unwrap()
}

fn request_new_task_error(service: &mut TaskService, json_string: &str) -> TaskError {
    let request_json = create_task_request(json_string);
    let response = send(service, request_json);
    TaskError::from_text(&response.body).unwrap()
}

#[test]
fn should_post_task_successfully() {
    let mut service = service();
    let tasks = create_new_task(&mut service, Some("foo".into()), Some(false));

    assert_eq!(tasks.name, "foo");
    assert_eq!(tasks.done, Some(false));
}

#[test]
fn should_list_all_tasks_successfully() {
    let mut service = service();
    let tasks = get_all_tasks(&mut service);

    let previous_length = tasks.len();

    create_new_task(&mut service, Some("foo".into()), Some(false));

    let new_tasks = get_all_tasks(&mut service);
    let task = new_tasks.last().unwrap();

    assert_eq!(new_tasks.len(), previous_length + 1);
    assert_eq!(task.name, "foo");
    assert_eq!(task.done, Some(false));
}

#[test]
fn should_return_name_required_error() {
    let mut service = service();
    let task_error = request_new_task_error(
        &mut service,
        &TaskRequest { name: None, done: Some(false) }.to_json(),
    );

    assert_eq!(task_error.error_codes, vec!["name_required"]);
}

#[test]
fn should_return_done_required_error() {
    let mut service = service();
    let task_error = request_new_task_error(
        &mut service,
        &TaskRequest { name: Some("foo".into()), done: None }.to_json(),
    );

    assert_eq!(task_error.error_codes, vec!["done_required"]);
}

#[test]
fn should_return_name_invalid_error() {
    let mut service = service();
    let mut body = serde_json::Map::new();
    body.insert("name".to_string(), serde_json::Value::from(123));
    body.insert("done".to_string(), serde_json::Value::from(Some(false)));
    let json_string = serde_json::to_string(&body).unwrap();

    let task_error = request_new_task_error(&mut service, &json_string);

    assert_eq!(task_error.error_codes, vec!["name_invalid"]);
}

#[test]
fn should_return_done_invalid_error() {
    let mut service = service();
    let mut body = serde_json::Map::new();
    body.insert("name".to_string(), serde_json::Value::from(Some("foo")));
    body.insert("done".to_string(), serde_json::Value::from(123));
    let json_string = serde_json::to_string(&body).unwrap();

    let task_error = request_new_task_error(&mut service, &json_string);

    assert_eq!(task_error.error_codes, vec!["done_invalid"]);
}

#[test]
fn should_return_json_invalid_error() {
    let mut service = service();
    let request = request(
        Some(("Content-Type", "application/json")),
        format!("{}/tasks", BASE_URL),
        "POST",
        "{,,",
    );

    let response = send(&mut service, request);

    let task_error = TaskError::from_text(&response.body).unwrap();

    assert_eq!(task_error.error_codes, vec!["json_invalid"]);
}

#[test]
fn should_return_validation_error() {
    let mut service = service();
    let request = request(
        Some(("Content-Type", "application/json")),
        format!("{}/tasks", BASE_URL),
        "POST",
        "{ \"name\": \"foo\", \"done\": true, \"extra\": \"foo\" }",
    );

    let response = send(&mut service, request);

    let task_error = TaskError::from_text(&response.body).unwrap();

    assert_eq!(task_error.error_codes, vec!["extra_invalid"]);
}

#[test]
fn should_return_get_one_task() {
    let mut service = service();
    let created_task = create_new_task(&mut service, Some("foo".into()), Some(false));

    let response = get(&mut service, format!("{}/tasks/{}", BASE_URL, created_task.id));

    let task = Task::from_text(&response.body).unwrap();

    assert_eq!(created_task, task);
}

#[test]
fn should_return_404_response_only() {
    let mut service = service();
    let response = get(&mut service, format!("{}/tasks/{}", BASE_URL, "foo"));

    assert_eq!(response.status, NOT_FOUND);
    assert_eq!(response.body, "");
}

#[test]
fn should_return_404_response_only_for_unknown_route() {
    let mut service = service();
    let response = get(&mut service, format!("{}/foo", BASE_URL));

    assert_eq!(response.status, NOT_FOUND);
    assert_eq!(response.body, "");
}

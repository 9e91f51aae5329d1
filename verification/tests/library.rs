//! The library's own behaviour on concrete values.

use tasks_harness::checks::{
    created, has_list_grown, is_bare_not_found, is_fetched, is_rejected_with, Check, Exchange, Step,
};
use tasks_harness::http::{
    api_path, api_url, base_url, create_task_request, get, post_json, route_url, task_url, tasks_url, Method,
    Request, Response, BAD_REQUEST, CREATED, NOT_FOUND, OK,
};
use tasks_harness::json::Json;
use tasks_harness::scenario::{
    captured_task_id, fixed_payload, startup_request, task_id_of, workloads, FailureReason, RequestOutcome,
    StartupError, Workload,
};
use tasks_harness::numeral::decimal_text;
use tasks_harness::service::{find_faults, Reply, TaskService};
use tasks_harness::task::{
    frame_request, frame_task, frame_task_error, tasks_from_text, tasks_to_json, DecodeError,
    ErrorCode, Task, TaskError, TaskRequest,
};

const BASE: &str = "http://localhost:8080/api";

fn parse(text: &str) -> Option<Json> {
    Exchange::observe(Response { status: 200, body: text.to_string() }).json
}

fn quote(text: &str) -> String {
    let written = TaskRequest { name: Some(text.to_string()), done: None }.to_json();
    let inner = written.strip_prefix("{\"name\":").unwrap().strip_suffix(",\"done\":null}").unwrap();
    inner.to_string()
}

fn task(id: &str, name: &str, done: Option<bool>) -> Task {
    Task { id: id.to_string(), name: name.to_string(), done }
}

fn post(service: &mut TaskService, body: &str) -> Response {
    service.handle(&post_json(tasks_url(BASE), body))
}

fn codes_for(body: &str) -> Vec<String> {
    let mut service = TaskService::new(BASE);
    let response = post(&mut service, body);
    assert_eq!(response.status, BAD_REQUEST);
    assert_eq!(service.len(), 0);
    TaskError::from_text(&response.body).unwrap().error_codes
}

/// Drives a check to its verdict, with `transport` standing for the wire.
fn run(check: Check, mut transport: impl FnMut(Request) -> Response) -> (bool, usize) {
    let mut seen: Vec<Exchange> = Vec::new();
    loop {
        match check.step(BASE, &seen) {
            Step::Send(request) => seen.push(Exchange::observe(transport(request))),
            Step::Passed => return (true, seen.len()),
            Step::Failed => return (false, seen.len()),
        }
    }
}

#[test]
fn request_is_written_with_name_then_done() {
    let request = TaskRequest { name: Some("foo".into()), done: Some(false) };
    assert_eq!(request.to_json(), "{\"name\":\"foo\",\"done\":false}");
    let request = TaskRequest { name: Some("bar".into()), done: Some(true) };
    assert_eq!(request.to_json(), "{\"name\":\"bar\",\"done\":true}");
}

#[test]
fn absent_fields_are_written_as_null() {
    let request = TaskRequest { name: None, done: Some(false) };
    assert_eq!(request.to_json(), "{\"name\":null,\"done\":false}");
    let request = TaskRequest { name: Some("foo".into()), done: None };
    assert_eq!(request.to_json(), "{\"name\":\"foo\",\"done\":null}");
    let request = TaskRequest { name: None, done: None };
    assert_eq!(request.to_json(), "{\"name\":null,\"done\":null}");
}

#[test]
fn strings_are_quoted_and_escaped() {
    assert_eq!(quote("foo"), "\"foo\"");
    assert_eq!(quote(""), "\"\"");
    assert_eq!(quote("a\"b\\c\nd"), "\"a\\\"b\\\\c\\nd\"");
    assert_eq!(quote("\u{1}"), "\"\\u0001\"");
    let request = TaskRequest { name: Some("say \"hi\"".into()), done: Some(true) };
    assert_eq!(request.to_json(), "{\"name\":\"say \\\"hi\\\"\",\"done\":true}");
}

#[test]
fn task_is_written_with_id_name_done() {
    assert_eq!(
        task("7", "foo", Some(false)).to_json(),
        "{\"id\":\"7\",\"name\":\"foo\",\"done\":false}"
    );
    assert_eq!(task("8", "x", None).to_json(), "{\"id\":\"8\",\"name\":\"x\",\"done\":null}");
}

#[test]
fn task_list_is_written_as_array() {
    assert_eq!(tasks_to_json(&vec![]), "[]");
    assert_eq!(
        tasks_to_json(&vec![task("1", "a", Some(true))]),
        "[{\"id\":\"1\",\"name\":\"a\",\"done\":true}]"
    );
    assert_eq!(
        tasks_to_json(&vec![task("1", "a", Some(true)), task("2", "b", None)]),
        "[{\"id\":\"1\",\"name\":\"a\",\"done\":true},{\"id\":\"2\",\"name\":\"b\",\"done\":null}]"
    );
}

#[test]
fn rejection_is_written_in_camel_case() {
    let error = TaskError {
        request_id: "r1".into(),
        error_codes: vec!["name_required".into(), "done_required".into()],
        error_type: "invalid_request".into(),
    };
    assert_eq!(
        error.to_json(),
        "{\"requestId\":\"r1\",\"errorCodes\":[\"name_required\",\"done_required\"],\"errorType\":\"invalid_request\"}"
    );
    let error = TaskError { request_id: "".into(), error_codes: vec![], error_type: "".into() };
    assert_eq!(error.to_json(), "{\"requestId\":\"\",\"errorCodes\":[],\"errorType\":\"\"}");
}

#[test]
fn written_shapes_read_back() {
    let written = task("12", "line\nbreak \"quoted\"", Some(true));
    assert_eq!(Task::from_text(&written.to_json()), Ok(written.clone()));
    let list = vec![written.clone(), task("13", "", None)];
    assert_eq!(tasks_from_text(&tasks_to_json(&list)), Ok(list));
    let error = TaskError {
        request_id: "3".into(),
        error_codes: vec!["json_invalid".into()],
        error_type: "invalid_request".into(),
    };
    assert_eq!(TaskError::from_text(&error.to_json()), Ok(error));
}

#[test]
fn task_is_read_from_an_object() {
    let read = Task::from_text("{\"id\":\"1\",\"name\":\"foo\",\"done\":false}");
    assert_eq!(read, Ok(task("1", "foo", Some(false))));
    let read = Task::from_text(" { \"done\" : true , \"name\" : \"n\" , \"id\" : \"i\" } ");
    assert_eq!(read, Ok(task("i", "n", Some(true))));
}

#[test]
fn task_done_may_be_absent_or_null() {
    assert_eq!(Task::from_text("{\"id\":\"1\",\"name\":\"foo\"}"), Ok(task("1", "foo", None)));
    assert_eq!(
        Task::from_text("{\"id\":\"1\",\"name\":\"foo\",\"done\":null}"),
        Ok(task("1", "foo", None))
    );
}

#[test]
fn task_passes_over_other_members() {
    let read = Task::from_text("{\"id\":\"1\",\"extra\":[1,{\"a\":2.5}],\"name\":\"foo\",\"done\":true}");
    assert_eq!(read, Ok(task("1", "foo", Some(true))));
}

#[test]
fn task_of_another_shape_is_refused() {
    assert_eq!(Task::from_text("{\"name\":\"foo\",\"done\":false}"), Err(DecodeError::WrongShape));
    assert_eq!(Task::from_text("{\"id\":\"1\",\"done\":false}"), Err(DecodeError::WrongShape));
    assert_eq!(
        Task::from_text("{\"id\":1,\"name\":\"foo\",\"done\":false}"),
        Err(DecodeError::WrongShape)
    );
    assert_eq!(
        Task::from_text("{\"id\":\"1\",\"name\":null,\"done\":false}"),
        Err(DecodeError::WrongShape)
    );
    assert_eq!(
        Task::from_text("{\"id\":\"1\",\"name\":\"foo\",\"done\":\"no\"}"),
        Err(DecodeError::WrongShape)
    );
    assert_eq!(Task::from_text("[\"1\",\"foo\",false]"), Err(DecodeError::WrongShape));
    assert_eq!(Task::from_text("null"), Err(DecodeError::WrongShape));
}

#[test]
fn text_that_is_no_json_is_refused() {
    assert_eq!(Task::from_text(""), Err(DecodeError::NotJson));
    assert_eq!(Task::from_text("{,,"), Err(DecodeError::NotJson));
    assert_eq!(Task::from_text("{\"id\":\"1\"} trailing"), Err(DecodeError::NotJson));
    assert_eq!(TaskError::from_text(""), Err(DecodeError::NotJson));
    assert_eq!(tasks_from_text("[") , Err(DecodeError::NotJson));
}

#[test]
fn rejection_is_read_from_an_object() {
    let read = TaskError::from_text(
        "{\"requestId\":\"abc\",\"errorCodes\":[\"name_required\"],\"errorType\":\"validation\"}",
    );
    assert_eq!(
        read,
        Ok(TaskError {
            request_id: "abc".into(),
            error_codes: vec!["name_required".into()],
            error_type: "validation".into(),
        })
    );
    let read = TaskError::from_text("{\"requestId\":\"\",\"errorCodes\":[],\"errorType\":\"\"}");
    assert_eq!(read.unwrap().error_codes, Vec::<String>::new());
}

#[test]
fn rejection_of_another_shape_is_refused() {
    assert_eq!(
        TaskError::from_text("{\"request_id\":\"a\",\"error_codes\":[],\"error_type\":\"t\"}"),
        Err(DecodeError::WrongShape)
    );
    assert_eq!(
        TaskError::from_text("{\"requestId\":\"a\",\"errorCodes\":[1],\"errorType\":\"t\"}"),
        Err(DecodeError::WrongShape)
    );
    assert_eq!(
        TaskError::from_text("{\"requestId\":\"a\",\"errorCodes\":\"x\",\"errorType\":\"t\"}"),
        Err(DecodeError::WrongShape)
    );
    assert_eq!(
        TaskError::from_text("{\"requestId\":\"a\",\"errorCodes\":[\"x\"]}"),
        Err(DecodeError::WrongShape)
    );
    assert_eq!(
        TaskError::from_text("{\"id\":\"1\",\"name\":\"foo\",\"done\":false}"),
        Err(DecodeError::WrongShape)
    );
}

#[test]
fn task_list_is_read_from_an_array() {
    assert_eq!(tasks_from_text("[]"), Ok(vec![]));
    assert_eq!(
        tasks_from_text("[{\"id\":\"1\",\"name\":\"a\"},{\"id\":\"2\",\"name\":\"b\",\"done\":true}]"),
        Ok(vec![task("1", "a", None), task("2", "b", Some(true))])
    );
    assert_eq!(tasks_from_text("[{\"id\":\"1\",\"name\":\"a\"},3]"), Err(DecodeError::WrongShape));
    assert_eq!(tasks_from_text("{\"id\":\"1\",\"name\":\"a\"}"), Err(DecodeError::WrongShape));
}

#[test]
fn parsed_documents_keep_every_kind_of_value() {
    let doc = parse("{\"a\":null,\"b\":true,\"c\":123,\"d\":\"s\",\"e\":[1.5,\"x\"],\"f\":{\"g\":-7}}")
        .unwrap();
    assert!(doc.member("a").unwrap().is_null());
    assert_eq!(doc.member("b").unwrap().as_bool(), Some(true));
    assert!(matches!(doc.member("c"), Some(Json::Number(n)) if n == "123"));
    assert_eq!(doc.member("d").unwrap().as_text(), Some(&"s".to_string()));
    let items = doc.member("e").unwrap().as_array().unwrap();
    assert_eq!(items.len(), 2);
    assert!(matches!(&items[0], Json::Number(n) if n == "1.5"));
    assert_eq!(items[1].as_text(), Some(&"x".to_string()));
    let inner = doc.member("f").unwrap();
    assert!(matches!(inner.member("g"), Some(Json::Number(n)) if n == "-7"));
    assert!(doc.member("g").is_none());
    assert!(doc.member("").is_none());
}

#[test]
fn members_are_only_found_in_objects() {
    assert!(parse("[1]").unwrap().member("0").is_none());
    assert!(parse("\"name\"").unwrap().member("name").is_none());
    assert!(parse("{,,").is_none());
    assert!(parse("").is_none());
    assert_eq!(parse("true").unwrap().as_bool(), Some(true));
    assert_eq!(parse("true").unwrap().as_text(), None);
    assert!(parse("1").unwrap().as_array().is_none());
}

#[test]
fn addresses_are_joined_under_the_base() {
    assert_eq!(base_url(), "http://localhost:8080/api");
    assert_eq!(tasks_url(BASE), "http://localhost:8080/api/tasks");
    assert_eq!(task_url(BASE, "42"), "http://localhost:8080/api/tasks/42");
    assert_eq!(route_url(BASE, "/foo"), "http://localhost:8080/api/foo");
    assert_eq!(api_path(), "/api");
    assert_eq!(tasks_url(api_path()), "/api/tasks");
    assert_eq!(task_url("/api", "9"), "/api/tasks/9");
}

#[test]
fn api_base_gets_exactly_one_slash() {
    assert_eq!(api_url("http://host:1/"), "http://host:1/api");
    assert_eq!(api_url("http://host:1"), "http://host:1/api");
    assert_eq!(api_url(""), "/api");
    assert_eq!(api_url("/"), "/api");
}

#[test]
fn requests_are_built_as_plain_values() {
    let request = get("http://h/x".to_string());
    assert_eq!(
        request,
        Request { method: Method::Get, url: "http://h/x".into(), content_type: None, body: "".into() }
    );
    let request = post_json("http://h/x".to_string(), "{}");
    assert_eq!(
        request,
        Request {
            method: Method::Post,
            url: "http://h/x".into(),
            content_type: Some("application/json".into()),
            body: "{}".into(),
        }
    );
    let request = create_task_request("{,,");
    assert_eq!(request.method, Method::Post);
    assert_eq!(request.url, "http://localhost:8080/api/tasks");
    assert_eq!(request.content_type.as_deref(), Some("application/json"));
    assert_eq!(request.body, "{,,");
}

#[test]
fn create_counts_as_success_only_on_201() {
    let workload = Workload::CreateTask;
    assert_eq!(workload.expected_status(), CREATED);
    assert_eq!(workload.classify(Some(201)), RequestOutcome::Success);
    assert_eq!(
        workload.classify(Some(200)),
        RequestOutcome::Failed(FailureReason::UnexpectedStatus(200))
    );
    assert_eq!(
        workload.classify(Some(400)),
        RequestOutcome::Failed(FailureReason::UnexpectedStatus(400))
    );
    assert_eq!(workload.classify(None), RequestOutcome::Failed(FailureReason::NoResponse));
}

#[test]
fn fetch_counts_as_success_only_on_200() {
    let workload = Workload::GetTask;
    assert_eq!(workload.expected_status(), OK);
    assert_eq!(workload.classify(Some(200)), RequestOutcome::Success);
    assert_eq!(
        workload.classify(Some(201)),
        RequestOutcome::Failed(FailureReason::UnexpectedStatus(201))
    );
    assert_eq!(
        workload.classify(Some(404)),
        RequestOutcome::Failed(FailureReason::UnexpectedStatus(404))
    );
    assert_eq!(workload.classify(None), RequestOutcome::Failed(FailureReason::NoResponse));
}

#[test]
fn workloads_are_registered_under_their_names() {
    assert_eq!(workloads(), vec![Workload::CreateTask, Workload::GetTask]);
    assert_eq!(Workload::CreateTask.name(), "Create Tasks");
    assert_eq!(Workload::GetTask.name(), "Get Tasks");
}

#[test]
fn workload_requests_use_the_fixed_payload_and_the_captured_id() {
    assert_eq!(fixed_payload(), TaskRequest { name: Some("foo".into()), done: Some(false) });
    let create = Workload::CreateTask.request("/api", "17");
    assert_eq!(create, post_json("/api/tasks".to_string(), "{\"name\":\"foo\",\"done\":false}"));
    let fetch = Workload::GetTask.request("/api", "17");
    assert_eq!(fetch, get("/api/tasks/17".to_string()));
}

#[test]
fn startup_without_endpoint_sends_nothing() {
    assert_eq!(startup_request(None), Err(StartupError::MissingEndpoint));
}

#[test]
fn startup_creates_the_fixed_task() {
    let request = startup_request(Some("http://localhost:8080/")).unwrap();
    assert_eq!(
        request,
        post_json(
            "http://localhost:8080/api/tasks".to_string(),
            "{\"name\":\"foo\",\"done\":false}"
        )
    );
    let request = startup_request(Some("http://localhost:8080")).unwrap();
    assert_eq!(request.url, "http://localhost:8080/api/tasks");
}

#[test]
fn startup_captures_the_id_of_the_created_task() {
    assert_eq!(
        captured_task_id("{\"id\":\"abc-1\",\"name\":\"foo\",\"done\":false}"),
        Ok("abc-1".to_string())
    );
    assert_eq!(captured_task_id(""), Err(StartupError::NoTask(DecodeError::NotJson)));
    assert_eq!(
        captured_task_id("{\"requestId\":\"1\",\"errorCodes\":[\"json_invalid\"],\"errorType\":\"x\"}"),
        Err(StartupError::NoTask(DecodeError::WrongShape))
    );
}

#[test]
fn startup_runs_end_to_end_against_the_service() {
    let mut service = TaskService::new("http://localhost:8080/api");
    let request = startup_request(Some("http://localhost:8080/")).unwrap();
    let response = service.handle(&request);
    assert_eq!(Workload::CreateTask.classify(Some(response.status)), RequestOutcome::Success);
    let id = captured_task_id(&response.body).unwrap();
    assert!(!id.is_empty());
    let fetch = Workload::GetTask.request("http://localhost:8080/api", &id);
    let response = service.handle(&fetch);
    assert_eq!(Workload::GetTask.classify(Some(response.status)), RequestOutcome::Success);
    let create = Workload::CreateTask.request("http://localhost:8080/api", &id);
    let response = service.handle(&create);
    assert_eq!(Workload::CreateTask.classify(Some(response.status)), RequestOutcome::Success);
    assert_eq!(service.len(), 2);
}

#[test]
fn numerals_have_no_leading_zeros() {
    assert_eq!(decimal_text(0), "0");
    assert_eq!(decimal_text(9), "9");
    assert_eq!(decimal_text(10), "10");
    assert_eq!(decimal_text(12345), "12345");
    assert_eq!(decimal_text(u128::MAX), u128::MAX.to_string());
}

#[test]
fn error_codes_are_written_in_snake_case() {
    assert_eq!(ErrorCode::NameRequired.as_str(), "name_required");
    assert_eq!(ErrorCode::DoneRequired.as_str(), "done_required");
    assert_eq!(ErrorCode::NameInvalid.as_str(), "name_invalid");
    assert_eq!(ErrorCode::DoneInvalid.as_str(), "done_invalid");
    assert_eq!(ErrorCode::JsonInvalid.as_str(), "json_invalid");
    assert_eq!(ErrorCode::ExtraInvalid.as_str(), "extra_invalid");
}

#[test]
fn any_valid_payload_is_created_and_echoed() {
    let mut service = TaskService::new(BASE);
    let payloads = [("foo", false), ("", true), ("a \"quoted\" name", false), ("späť", true)];
    for (index, (name, done)) in payloads.iter().enumerate() {
        let body = TaskRequest { name: Some(name.to_string()), done: Some(*done) }.to_json();
        let response = post(&mut service, &body);
        assert_eq!(response.status, 201);
        let created = Task::from_text(&response.body).unwrap();
        assert_eq!(created, task(&(index + 1).to_string(), name, Some(*done)));
    }
    assert_eq!(service.len(), payloads.len());
}

#[test]
fn members_may_come_in_any_order() {
    let mut service = TaskService::new(BASE);
    let response = post(&mut service, "{\"done\":true,\"name\":\"x\"}");
    assert_eq!(response.status, CREATED);
    assert_eq!(Task::from_text(&response.body), Ok(task("1", "x", Some(true))));
}

#[test]
fn repeated_fetch_returns_the_same_bytes() {
    let mut service = TaskService::new(BASE);
    let created = post(&mut service, "{\"name\":\"foo\",\"done\":false}");
    let id = Task::from_text(&created.body).unwrap().id;
    let first = service.handle(&get(task_url(BASE, &id)));
    let second = service.handle(&get(task_url(BASE, &id)));
    assert_eq!(first, second);
    post(&mut service, "{\"name\":\"bar\",\"done\":true}");
    post(&mut service, "{,,");
    let third = service.handle(&get(task_url(BASE, &id)));
    assert_eq!(first, third);
    assert_eq!(first.status, 200);
    assert_eq!(first.body, created.body);
}

#[test]
fn each_create_lengthens_the_list_by_one() {
    let mut service = TaskService::new(BASE);
    for round in 0..5 {
        let before = tasks_from_text(&service.handle(&get(tasks_url(BASE))).body).unwrap();
        assert_eq!(before.len(), round);
        let created = post(&mut service, "{\"name\":\"foo\",\"done\":false}");
        let after = tasks_from_text(&service.handle(&get(tasks_url(BASE))).body).unwrap();
        assert_eq!(after.len(), before.len() + 1);
        assert_eq!(after.last(), Some(&Task::from_text(&created.body).unwrap()));
        assert_eq!(&after[..round], &before[..]);
    }
}

#[test]
fn rejected_create_leaves_the_list_alone() {
    let mut service = TaskService::new(BASE);
    post(&mut service, "{\"name\":\"foo\",\"done\":false}");
    let before = service.handle(&get(tasks_url(BASE)));
    assert_eq!(post(&mut service, "{\"name\":\"foo\"}").status, 400);
    let after = service.handle(&get(tasks_url(BASE)));
    assert_eq!(before, after);
    assert_eq!(before.status, OK);
}

#[test]
fn each_single_fault_has_its_one_code() {
    assert_eq!(codes_for("{\"done\":false}"), vec!["name_required"]);
    assert_eq!(codes_for("{\"name\":null,\"done\":false}"), vec!["name_required"]);
    assert_eq!(codes_for("{\"name\":\"foo\"}"), vec!["done_required"]);
    assert_eq!(codes_for("{\"name\":\"foo\",\"done\":null}"), vec!["done_required"]);
    assert_eq!(codes_for("{\"name\":123,\"done\":false}"), vec!["name_invalid"]);
    assert_eq!(codes_for("{\"name\":[\"foo\"],\"done\":false}"), vec!["name_invalid"]);
    assert_eq!(codes_for("{\"name\":\"foo\",\"done\":123}"), vec!["done_invalid"]);
    assert_eq!(codes_for("{\"name\":\"foo\",\"done\":\"false\"}"), vec!["done_invalid"]);
    assert_eq!(codes_for("{,,"), vec!["json_invalid"]);
    assert_eq!(codes_for(""), vec!["json_invalid"]);
    assert_eq!(
        codes_for("{ \"name\": \"foo\", \"done\": true, \"extra\": \"foo\" }"),
        vec!["extra_invalid"]
    );
}

#[test]
fn several_faults_are_listed_in_order() {
    assert_eq!(codes_for("{}"), vec!["name_required", "done_required"]);
    assert_eq!(codes_for("{\"name\":1,\"done\":2}"), vec!["name_invalid", "done_invalid"]);
    assert_eq!(
        codes_for("{\"zzz\":1,\"done\":\"x\"}"),
        vec!["name_required", "done_invalid", "extra_invalid"]
    );
    assert_eq!(codes_for("[]"), vec!["json_invalid"]);
    assert_eq!(codes_for("\"name\""), vec!["json_invalid"]);
    assert_eq!(codes_for("null"), vec!["json_invalid"]);
}

#[test]
fn faults_are_found_in_parsed_bodies() {
    assert_eq!(find_faults(&None), vec![ErrorCode::JsonInvalid]);
    assert_eq!(find_faults(&parse("{\"name\":\"a\",\"done\":true}")), vec![]);
    assert_eq!(
        find_faults(&parse("{\"name\":\"a\",\"done\":true,\"more\":0}")),
        vec![ErrorCode::ExtraInvalid]
    );
    assert_eq!(find_faults(&Some(Json::Null)), vec![ErrorCode::JsonInvalid]);
}

#[test]
fn rejection_carries_status_and_type() {
    let mut service = TaskService::new(BASE);
    let response = post(&mut service, "{}");
    assert_eq!(response.status, 400);
    let error = TaskError::from_text(&response.body).unwrap();
    assert_eq!(error.request_id, "1");
    assert_eq!(error.error_type, "invalid_request");
    assert!(!error.error_codes.is_empty());
}

#[test]
fn unknown_targets_get_a_bare_404() {
    let mut service = TaskService::new(BASE);
    post(&mut service, "{\"name\":\"foo\",\"done\":false}");
    for url in [
        task_url(BASE, "foo"),
        task_url(BASE, "2"),
        task_url(BASE, "01"),
        task_url(BASE, ""),
        task_url(BASE, "1/"),
        route_url(BASE, "/foo"),
        route_url(BASE, ""),
        route_url(BASE, "/task"),
        route_url(BASE, "/tasksx"),
        "http://localhost:8080/tasks".to_string(),
        "".to_string(),
    ] {
        let response = service.handle(&get(url));
        assert_eq!(response.status, 404);
        assert_eq!(response.body, "");
        assert_eq!(TaskError::from_text(&response.body), Err(DecodeError::NotJson));
    }
    assert_eq!(service.handle(&post_json(task_url(BASE, "1"), "{}")).status, NOT_FOUND);
    assert_eq!(service.len(), 1);
}

#[test]
fn created_task_is_fetched_by_its_id() {
    let mut service = TaskService::new(BASE);
    for _ in 0..12 {
        post(&mut service, "{\"name\":\"filler\",\"done\":true}");
    }
    let created = post(&mut service, "{\"name\":\"foo\",\"done\":false}");
    assert_eq!(created.status, 201);
    let task = Task::from_text(&created.body).unwrap();
    assert!(!task.id.is_empty());
    assert_eq!(task.name, "foo");
    assert_eq!(task.done, Some(false));
    let fetched = service.handle(&get(task_url(BASE, &task.id)));
    assert_eq!(fetched.status, 200);
    assert_eq!(fetched.body, created.body);
}

#[test]
fn ids_are_distinct() {
    let mut service = TaskService::new(BASE);
    let mut ids = Vec::new();
    for _ in 0..25 {
        let created = post(&mut service, "{\"name\":\"foo\",\"done\":false}");
        ids.push(Task::from_text(&created.body).unwrap().id);
    }
    for (i, a) in ids.iter().enumerate() {
        assert!(!a.is_empty());
        for b in &ids[i + 1..] {
            assert_ne!(a, b);
        }
    }
}

#[test]
fn typed_operations_agree_with_the_wire() {
    let mut service = TaskService::new(BASE);
    let reply = service.create(&parse("{\"name\":\"foo\",\"done\":false}"));
    assert!(matches!(&reply, Reply::Created(t) if *t == task("1", "foo", Some(false))));
    assert_eq!(reply.status(), 201);
    assert_eq!(reply.body(), "{\"id\":\"1\",\"name\":\"foo\",\"done\":false}");
    let reply = service.fetch("1");
    assert!(matches!(&reply, Reply::Found(t) if *t == task("1", "foo", Some(false))));
    assert_eq!(reply.response(), Response { status: 200, body: task("1", "foo", Some(false)).to_json() });
    let reply = service.fetch("2");
    assert!(matches!(reply, Reply::NotFound));
    assert_eq!(reply.response(), Response { status: 404, body: String::new() });
    let reply = service.list();
    assert!(matches!(&reply, Reply::Listing(all) if all.len() == 1));
    assert_eq!(reply.status(), 200);
    let reply = service.create(&None);
    assert!(matches!(&reply, Reply::Rejected(e) if e.error_codes == vec!["json_invalid"]));
    assert_eq!(reply.status(), 400);
}

#[test]
fn every_check_passes_against_the_service() {
    for check in Check::all() {
        let mut service = TaskService::new(BASE);
        let (passed, rounds) = run(check, |request| service.handle(&request));
        assert!(passed, "{}", check.title());
        assert!(rounds >= 1 && rounds <= 3);
    }
}

#[test]
fn every_check_passes_against_a_service_in_use() {
    let mut service = TaskService::new(BASE);
    for _ in 0..3 {
        for check in Check::all() {
            let (passed, _) = run(check, |request| service.handle(&request));
            assert!(passed, "{}", check.title());
        }
    }
    assert_eq!(service.len(), 9);
}

#[test]
fn no_check_passes_when_nothing_answers_properly() {
    for check in Check::all() {
        let (passed, rounds) =
            run(check, |_| Response { status: 500, body: "internal error".to_string() });
        assert!(!passed, "{}", check.title());
        assert!(rounds <= 3);
    }
}

#[test]
fn checks_send_the_requests_of_the_table() {
    let first = |check: Check| match check.step(BASE, &Vec::new()) {
        Step::Send(request) => request,
        _ => panic!("a check starts with a request"),
    };
    let create = |body: &str| post_json(tasks_url(BASE), body);
    assert_eq!(first(Check::CreateSucceeds), create("{\"name\":\"foo\",\"done\":false}"));
    assert_eq!(first(Check::ListReflectsCreation), get(tasks_url(BASE)));
    assert_eq!(first(Check::MissingName), create("{\"name\":null,\"done\":false}"));
    assert_eq!(first(Check::MissingDone), create("{\"name\":\"foo\",\"done\":null}"));
    assert_eq!(first(Check::WrongTypeName), create("{\"name\":123,\"done\":false}"));
    assert_eq!(first(Check::WrongTypeDone), create("{\"name\":\"foo\",\"done\":123}"));
    assert_eq!(first(Check::MalformedJson), create("{,,"));
    assert_eq!(
        first(Check::UnknownExtraField),
        create("{ \"name\": \"foo\", \"done\": true, \"extra\": \"foo\" }")
    );
    assert_eq!(first(Check::FetchById), create("{\"name\":\"foo\",\"done\":false}"));
    assert_eq!(first(Check::FetchUnknownId), get(task_url(BASE, "foo")));
    assert_eq!(first(Check::FetchUnknownRoute), get(route_url(BASE, "/foo")));
}

#[test]
fn checks_name_the_code_they_expect() {
    assert_eq!(Check::MissingName.code(), Some(ErrorCode::NameRequired));
    assert_eq!(Check::MissingDone.code(), Some(ErrorCode::DoneRequired));
    assert_eq!(Check::WrongTypeName.code(), Some(ErrorCode::NameInvalid));
    assert_eq!(Check::WrongTypeDone.code(), Some(ErrorCode::DoneInvalid));
    assert_eq!(Check::MalformedJson.code(), Some(ErrorCode::JsonInvalid));
    assert_eq!(Check::UnknownExtraField.code(), Some(ErrorCode::ExtraInvalid));
    assert_eq!(Check::CreateSucceeds.code(), None);
    assert_eq!(Check::FetchById.code(), None);
    assert_eq!(Check::all().len(), 11);
}

fn exchange(status: u16, body: &str) -> Exchange {
    Exchange::observe(Response { status, body: body.to_string() })
}

fn verdict(check: Check, seen: Vec<Exchange>) -> bool {
    match check.step(BASE, &seen) {
        Step::Passed => true,
        Step::Failed => false,
        Step::Send(_) => panic!("the check is not done"),
    }
}

#[test]
fn create_check_wants_201_and_the_echo() {
    let good = "{\"id\":\"1\",\"name\":\"foo\",\"done\":false}";
    assert!(verdict(Check::CreateSucceeds, vec![exchange(201, good)]));
    assert!(!verdict(Check::CreateSucceeds, vec![exchange(200, good)]));
    assert!(!verdict(
        Check::CreateSucceeds,
        vec![exchange(201, "{\"id\":\"1\",\"name\":\"bar\",\"done\":false}")]
    ));
    assert!(!verdict(
        Check::CreateSucceeds,
        vec![exchange(201, "{\"id\":\"1\",\"name\":\"foo\",\"done\":true}")]
    ));
    assert!(!verdict(Check::CreateSucceeds, vec![exchange(201, "{\"id\":\"1\",\"name\":\"foo\"}")]));
    assert!(!verdict(Check::CreateSucceeds, vec![exchange(201, "")]));
}

#[test]
fn fault_checks_want_exactly_the_one_code() {
    let body = |codes: &str| {
        format!("{{\"requestId\":\"r\",\"errorCodes\":[{}],\"errorType\":\"t\"}}", codes)
    };
    assert!(verdict(Check::MissingName, vec![exchange(400, &body("\"name_required\""))]));
    assert!(verdict(Check::MissingName, vec![exchange(422, &body("\"name_required\""))]));
    assert!(!verdict(Check::MissingName, vec![exchange(200, &body("\"name_required\""))]));
    assert!(!verdict(Check::MissingName, vec![exchange(500, &body("\"name_required\""))]));
    assert!(!verdict(Check::MissingName, vec![exchange(400, &body("\"done_required\""))]));
    assert!(!verdict(
        Check::MissingName,
        vec![exchange(400, &body("\"name_required\",\"done_required\""))]
    ));
    assert!(!verdict(Check::MissingName, vec![exchange(400, &body(""))]));
    assert!(!verdict(Check::MissingName, vec![exchange(400, "")]));
    assert!(verdict(Check::MalformedJson, vec![exchange(400, &body("\"json_invalid\""))]));
    assert!(verdict(Check::UnknownExtraField, vec![exchange(400, &body("\"extra_invalid\""))]));
    assert!(verdict(Check::WrongTypeName, vec![exchange(400, &body("\"name_invalid\""))]));
    assert!(verdict(Check::WrongTypeDone, vec![exchange(400, &body("\"done_invalid\""))]));
    assert!(verdict(Check::MissingDone, vec![exchange(400, &body("\"done_required\""))]));
}

#[test]
fn not_found_checks_want_404_and_no_body() {
    for check in [Check::FetchUnknownId, Check::FetchUnknownRoute] {
        assert!(verdict(check, vec![exchange(404, "")]));
        assert!(!verdict(check, vec![exchange(404, "{}")]));
        assert!(!verdict(
            check,
            vec![exchange(404, "{\"requestId\":\"r\",\"errorCodes\":[\"x\"],\"errorType\":\"t\"}")]
        ));
        assert!(!verdict(check, vec![exchange(200, "")]));
        assert!(!verdict(check, vec![exchange(400, "")]));
    }
}

#[test]
fn fetch_check_wants_200_and_the_created_task() {
    let created = "{\"id\":\"5\",\"name\":\"foo\",\"done\":false}";
    let step = Check::FetchById.step(BASE, &vec![exchange(201, created)]);
    assert!(matches!(step, Step::Send(request) if request == get(task_url(BASE, "5"))));
    assert!(verdict(Check::FetchById, vec![exchange(201, created), exchange(200, created)]));
    assert!(verdict(
        Check::FetchById,
        vec![exchange(201, created), exchange(200, "{\"done\":false,\"name\":\"foo\",\"id\":\"5\"}")]
    ));
    assert!(!verdict(Check::FetchById, vec![exchange(201, created), exchange(404, "")]));
    assert!(!verdict(Check::FetchById, vec![exchange(201, created), exchange(201, created)]));
    assert!(!verdict(
        Check::FetchById,
        vec![exchange(201, created), exchange(200, "{\"id\":\"6\",\"name\":\"foo\",\"done\":false}")]
    ));
    assert!(!verdict(Check::FetchById, vec![exchange(400, "")]));
    assert!(!verdict(
        Check::FetchById,
        vec![exchange(201, "{\"id\":\"\",\"name\":\"foo\",\"done\":false}")]
    ));
}

#[test]
fn list_check_wants_one_more_task_at_the_end() {
    let created = "{\"id\":\"2\",\"name\":\"foo\",\"done\":false}";
    let before = "[{\"id\":\"1\",\"name\":\"a\",\"done\":true}]";
    let after = "[{\"id\":\"1\",\"name\":\"a\",\"done\":true},{\"id\":\"2\",\"name\":\"foo\",\"done\":false}]";
    let seen = |a: &str, b: &str, c: &str| vec![exchange(200, a), exchange(201, b), exchange(200, c)];
    assert!(verdict(Check::ListReflectsCreation, seen(before, created, after)));
    assert!(verdict(Check::ListReflectsCreation, seen("[]", created, &format!("[{}]", created))));
    assert!(!verdict(Check::ListReflectsCreation, seen(before, created, before)));
    assert!(!verdict(Check::ListReflectsCreation, seen("[]", created, after)));
    assert!(!verdict(
        Check::ListReflectsCreation,
        seen(before, created, "[{\"id\":\"2\",\"name\":\"foo\",\"done\":false},{\"id\":\"1\",\"name\":\"a\",\"done\":true}]")
    ));
    assert!(!verdict(Check::ListReflectsCreation, seen(before, "", after)));
    assert!(!verdict(Check::ListReflectsCreation, seen("", created, after)));
    assert!(!verdict(Check::ListReflectsCreation, seen(before, created, "{}")));
}

#[test]
fn observed_exchange_keeps_status_body_and_document() {
    let seen = exchange(201, "{\"id\":\"1\"}");
    assert_eq!(seen.status, 201);
    assert_eq!(seen.body, "{\"id\":\"1\"}");
    assert!(seen.json.unwrap().member("id").is_some());
    let seen = exchange(404, "");
    assert!(seen.json.is_none());
}

#[test]
fn created_wants_the_echo_of_whatever_was_sent() {
    let sent = TaskRequest { name: Some("write tests".into()), done: Some(true) };
    let good = exchange(201, "{\"id\":\"9\",\"name\":\"write tests\",\"done\":true}");
    assert_eq!(created(&good, &sent), Some(task("9", "write tests", Some(true))));
    let other_name = exchange(201, "{\"id\":\"9\",\"name\":\"foo\",\"done\":true}");
    assert_eq!(created(&other_name, &sent), None);
    let other_flag = exchange(201, "{\"id\":\"9\",\"name\":\"write tests\",\"done\":false}");
    assert_eq!(created(&other_flag, &sent), None);
    let no_flag = exchange(201, "{\"id\":\"9\",\"name\":\"write tests\"}");
    assert_eq!(created(&no_flag, &sent), None);
    let other_status = exchange(200, "{\"id\":\"9\",\"name\":\"write tests\",\"done\":true}");
    assert_eq!(created(&other_status, &sent), None);
    let nameless = TaskRequest { name: None, done: Some(true) };
    assert_eq!(created(&good, &nameless), None);
    let flagless = TaskRequest { name: Some("write tests".into()), done: None };
    assert_eq!(created(&good, &flagless), None);
}

#[test]
fn created_accepts_what_the_service_answers_to_any_valid_payload() {
    let mut service = TaskService::new(BASE);
    for (name, done) in [("a", true), ("b", false), ("", true), ("\\ \" \n", false)] {
        let sent = TaskRequest { name: Some(name.to_string()), done: Some(done) };
        let seen = Exchange::observe(post(&mut service, &sent.to_json()));
        let task = created(&seen, &sent).unwrap();
        assert_eq!(task.name, name);
        assert_eq!(task.done, Some(done));
        let fetched = Exchange::observe(service.handle(&get(task_url(BASE, &task.id))));
        assert!(is_fetched(&fetched, &task));
    }
}

#[test]
fn verdict_helpers_agree_with_the_service() {
    let mut service = TaskService::new(BASE);
    let sent = fixed_payload();
    let before = Exchange::observe(service.handle(&get(tasks_url(BASE))));
    let create = Exchange::observe(post(&mut service, &sent.to_json()));
    let after = Exchange::observe(service.handle(&get(tasks_url(BASE))));
    assert!(has_list_grown(&before, &create, &after, &sent));
    assert!(!has_list_grown(&after, &create, &after, &sent));
    assert!(!has_list_grown(&before, &create, &before, &sent));
    let rejected = Exchange::observe(post(&mut service, "{\"done\":false}"));
    assert!(is_rejected_with(&rejected, ErrorCode::NameRequired));
    assert!(!is_rejected_with(&rejected, ErrorCode::DoneRequired));
    assert!(!is_rejected_with(&create, ErrorCode::NameRequired));
    let missing = Exchange::observe(service.handle(&get(task_url(BASE, "nope"))));
    assert!(is_bare_not_found(&missing));
    assert!(!is_bare_not_found(&create));
    assert!(!is_fetched(&missing, &task("1", "foo", Some(false))));
}

#[test]
fn frames_are_written_around_given_literals() {
    assert_eq!(frame_request(Some("\"foo\""), Some(false)), "{\"name\":\"foo\",\"done\":false}");
    assert_eq!(frame_request(None, None), "{\"name\":null,\"done\":null}");
    assert_eq!(frame_request(Some("123"), Some(true)), "{\"name\":123,\"done\":true}");
    assert_eq!(
        frame_task("\"1\"", "\"foo\"", Some(true)),
        "{\"id\":\"1\",\"name\":\"foo\",\"done\":true}"
    );
    assert_eq!(frame_task("\"1\"", "\"foo\"", None), "{\"id\":\"1\",\"name\":\"foo\",\"done\":null}");
    assert_eq!(
        frame_task_error("\"r\"", &vec!["\"a\"".to_string(), "\"b\"".to_string()], "\"t\""),
        "{\"requestId\":\"r\",\"errorCodes\":[\"a\",\"b\"],\"errorType\":\"t\"}"
    );
    assert_eq!(
        frame_task_error("\"r\"", &vec![], "\"t\""),
        "{\"requestId\":\"r\",\"errorCodes\":[],\"errorType\":\"t\"}"
    );
}

#[test]
fn captured_id_is_the_id_of_the_task_read() {
    assert_eq!(task_id_of(Ok(task("77", "foo", None))), Ok("77".to_string()));
    assert_eq!(
        task_id_of(Err(DecodeError::NotJson)),
        Err(StartupError::NoTask(DecodeError::NotJson))
    );
    assert_eq!(
        task_id_of(Err(DecodeError::WrongShape)),
        Err(StartupError::NoTask(DecodeError::WrongShape))
    );
}

fn members_of(doc: &Json) -> Vec<(String, String)> {
    let describe = |value: &Json| match value {
        Json::Null => "null".to_string(),
        Json::Bool(flag) => format!("bool {}", flag),
        Json::Number(text) => format!("number {}", text),
        Json::Text(text) => format!("text {}", text),
        Json::Array(items) => format!("array of {}", items.len()),
        Json::Object(members) => format!("object of {}", members.len()),
    };
    let mut all = match doc {
        Json::Object(members) => {
            members.iter().map(|m| (m.key.clone(), describe(&m.value))).collect::<Vec<_>>()
        }
        _ => panic!("not an object"),
    };
    all.sort();
    all
}

fn pairs(all: &[(&str, &str)]) -> Vec<(String, String)> {
    let mut all: Vec<_> = all.iter().map(|(k, v)| (k.to_string(), v.to_string())).collect();
    all.sort();
    all
}

#[test]
fn posted_bodies_are_read_as_the_documents_they_stand_for() {
    let posted = |check: Check| parse(&check.body().unwrap());
    for check in [Check::CreateSucceeds, Check::ListReflectsCreation, Check::FetchById] {
        assert_eq!(
            members_of(&posted(check).unwrap()),
            pairs(&[("name", "text foo"), ("done", "bool false")])
        );
    }
    assert_eq!(
        members_of(&posted(Check::MissingName).unwrap()),
        pairs(&[("name", "null"), ("done", "bool false")])
    );
    assert_eq!(
        members_of(&posted(Check::MissingDone).unwrap()),
        pairs(&[("name", "text foo"), ("done", "null")])
    );
    assert_eq!(
        members_of(&posted(Check::WrongTypeName).unwrap()),
        pairs(&[("name", "number 123"), ("done", "bool false")])
    );
    assert_eq!(
        members_of(&posted(Check::WrongTypeDone).unwrap()),
        pairs(&[("name", "text foo"), ("done", "number 123")])
    );
    assert_eq!(
        members_of(&posted(Check::UnknownExtraField).unwrap()),
        pairs(&[("name", "text foo"), ("done", "bool true"), ("extra", "text foo")])
    );
    assert!(posted(Check::MalformedJson).is_none());
    assert!(Check::FetchUnknownId.body().is_none());
    assert!(Check::FetchUnknownRoute.body().is_none());
}

#[test]
fn written_bodies_are_read_as_the_documents_they_stand_for() {
    let doc = parse(&task("4", "a \"b\"", Some(true)).to_json()).unwrap();
    assert_eq!(
        members_of(&doc),
        pairs(&[("id", "text 4"), ("name", "text a \"b\""), ("done", "bool true")])
    );
    let doc = parse(&task("4", "x", None).to_json()).unwrap();
    assert_eq!(members_of(&doc), pairs(&[("id", "text 4"), ("name", "text x"), ("done", "null")]));
    let error = TaskError {
        request_id: "9".into(),
        error_codes: vec!["name_required".into(), "extra_invalid".into()],
        error_type: "invalid_request".into(),
    };
    let doc = parse(&error.to_json()).unwrap();
    assert_eq!(
        members_of(&doc),
        pairs(&[
            ("requestId", "text 9"),
            ("errorCodes", "array of 2"),
            ("errorType", "text invalid_request")
        ])
    );
    let codes = doc.member("errorCodes").unwrap().as_array().unwrap();
    assert_eq!(codes[0].as_text(), Some(&"name_required".to_string()));
    assert_eq!(codes[1].as_text(), Some(&"extra_invalid".to_string()));
    let doc = parse(&tasks_to_json(&vec![task("1", "a", None), task("2", "b", None)])).unwrap();
    let items = doc.as_array().unwrap();
    assert_eq!(items.len(), 2);
    assert_eq!(members_of(&items[1]), pairs(&[("id", "text 2"), ("name", "text b"), ("done", "null")]));
    assert!(parse("").is_none());
}

//! Requests and responses as plain values, and the addresses of the tasks
//! service.

use vstd::prelude::*;

verus! {

/// Status of a successful read.
pub const OK: u16 = 200;

/// Status of a successful create.
pub const CREATED: u16 = 201;

/// Status with which a request is turned down.
pub const BAD_REQUEST: u16 = 400;

/// Status for an address that names nothing.
pub const NOT_FOUND: u16 = 404;

/// The two methods that the service answers.
#[derive(Debug, Clone, Copy, PartialEq, Eq)]
pub enum Method {
    Get,
    Post,
}

/// One request, ready to be handed to a transport.
#[derive(Debug, Clone, PartialEq, Eq)]
pub struct Request {
    pub method: Method,
    pub url: String,
    /// The `Content-Type` header, where the request carries a body.
    pub content_type: Option<String>,
    pub body: String,
}

/// What came back for one request.
#[derive(Debug, Clone, PartialEq, Eq)]
pub struct Response {
    pub status: u16,
    pub body: String,
}

/// The mathematical value of a [`Request`].
pub struct RequestView {
    pub method: Method,
    pub url: Seq<char>,
    pub content_type: Option<Seq<char>>,
    pub body: Seq<char>,
}

/// The mathematical value of a [`Response`].
pub struct ResponseView {
    pub status: u16,
    pub body: Seq<char>,
}

impl View for Request {
    type V = RequestView;

    open spec fn view(&self) -> RequestView {
        RequestView {
            method: self.method,
            url: self.url@,
            content_type: match self.content_type {
                Some(t) => Some(t@),
                None => None,
            },
            body: self.body@,
        }
    }
}

impl View for Response {
    type V = ResponseView;

    open spec fn view(&self) -> ResponseView {
        ResponseView { status: self.status, body: self.body@ }
    }
}

/// The base address that the conformance checks use when none is given.
pub open spec fn default_base() -> Seq<char> {
    "http://localhost:8080/api"@
}

/// The path of the API on its host.
pub open spec fn api_root() -> Seq<char> {
    "/api"@
}

/// The address of the task collection under `base`.
pub open spec fn tasks_address(base: Seq<char>) -> Seq<char> {
    base + "/tasks"@
}

/// The address of the task `id` under `base`.
pub open spec fn task_address(base: Seq<char>, id: Seq<char>) -> Seq<char> {
    base + "/tasks/"@ + id
}

/// The base address of the API on the host `endpoint`: the segment `api`
/// follows the endpoint, with one slash added where the endpoint does not end
/// in one.
pub open spec fn api_address(endpoint: Seq<char>) -> Seq<char> {
    if endpoint.len() > 0 && endpoint.last() == '/' {
        endpoint + "api"@
    } else {
        endpoint + "/api"@
    }
}

/// A `GET` of `url`.
pub open spec fn get_of(url: Seq<char>) -> RequestView {
    RequestView { method: Method::Get, url, content_type: None, body: Seq::empty() }
}

/// A `POST` of the JSON text `body` to `url`.
pub open spec fn post_of(url: Seq<char>, body: Seq<char>) -> RequestView {
    RequestView { method: Method::Post, url, content_type: Some("application/json"@), body }
}

/// The base address that the conformance checks use when none is given.
pub fn base_url() -> (r: &'static str)
    ensures
        r@ == default_base(),
{
    "http://localhost:8080/api"
}

/// The path of the API on its host, for a client that is given the host
/// separately.
pub fn api_path() -> (r: &'static str)
    ensures
        r@ == api_root(),
{
    "/api"
}

/// The address of the task collection under `base`.
pub fn tasks_url(base: &str) -> (r: String)
    ensures
        r@ == tasks_address(base@),
{
    let mut url = base.to_owned();
    url.append("/tasks");
    url
}

/// The address of the task `id` under `base`.
pub fn task_url(base: &str, id: &str) -> (r: String)
    ensures
        r@ == task_address(base@, id@),
{
    let mut url = base.to_owned();
    url.append("/tasks/");
    url.append(id);
    url
}

/// The address `path` under `base`; `path` starts with its own slash.
pub fn route_url(base: &str, path: &str) -> (r: String)
    ensures
        r@ == base@ + path@,
{
    let mut url = base.to_owned();
    url.append(path);
    url
}

/// The base address of the API on the host `endpoint`.
pub fn api_url(endpoint: &str) -> (r: String)
    ensures
        r@ == api_address(endpoint@),
{
    let n = endpoint.unicode_len();
    let mut url = endpoint.to_owned();
    if n > 0 && endpoint.get_char(n - 1) == '/' {
        url.append("api");
    } else {
        url.append("/api");
    }
    url
}

/// A `GET` of `url`.
pub fn get(url: String) -> (r: Request)
    ensures
        r@ == get_of(url@),
{
    Request { method: Method::Get, url, content_type: None, body: String::new() }
}

/// A `POST` of the JSON text `body` to `url`.
pub fn post_json(url: String, body: &str) -> (r: Request)
    ensures
        r@ == post_of(url@, body@),
{
    Request {
        method: Method::Post,
        url,
        content_type: Some("application/json".to_owned()),
        body: body.to_owned(),
    }
}

/// The create request that carries `request_json`, addressed to the default
/// base.
pub fn create_task_request(request_json: &str) -> (r: Request)
    ensures
        r@ == post_of(tasks_address(default_base()), request_json@),
{
    post_json(tasks_url(base_url()), request_json)
}

} // verus!

//! The tasks service held in memory: a store that answers requests exactly
//! as the contract prescribes. It gives the checks and the load scenario a
//! service to run against where there is no network.

use crate::contract::{
    code_texts, create_step, done_fault, extra_fault, faults, fetch_step, found, handle_step,
    listed, name_fault, route_of, ReplyView, RouteView, ServiceState,
};
use crate::http::{tasks_url, Method, Request, Response, BAD_REQUEST, CREATED, NOT_FOUND, OK};
use crate::json::{parsed_json, read_document, view_of, Json, JsonValue};
use crate::numeral::decimal_text;
use crate::task::{tasks_to_json, ErrorCode, Task, TaskError, TaskView};
use vstd::prelude::*;

verus! {

/// An answer of the service, before it is written out.
#[derive(Debug)]
pub enum Reply {
    Created(Task),
    Found(Task),
    Listing(Vec<Task>),
    Rejected(TaskError),
    NotFound,
}

impl View for Reply {
    type V = ReplyView;

    open spec fn view(&self) -> ReplyView {
        match self {
            Reply::Created(task) => ReplyView::Created(task@),
            Reply::Found(task) => ReplyView::Found(task@),
            Reply::Listing(tasks) => ReplyView::Listing(tasks.deep_view()),
            Reply::Rejected(error) => ReplyView::Rejected(error@),
            Reply::NotFound => ReplyView::NotFound,
        }
    }
}

impl Reply {
    /// The status that the answer is sent with.
    pub fn status(&self) -> (r: u16)
        ensures
            r == self@.status(),
    {
        match self {
            Reply::Created(_) => CREATED,
            Reply::Found(_) => OK,
            Reply::Listing(_) => OK,
            Reply::Rejected(_) => BAD_REQUEST,
            Reply::NotFound => NOT_FOUND,
        }
    }

    /// The body that the answer is sent with.
    pub fn body(&self) -> (r: String)
        ensures
            r@ == self@.body(),
    {
        match self {
            Reply::Created(task) => task.to_json(),
            Reply::Found(task) => task.to_json(),
            Reply::Listing(tasks) => tasks_to_json(tasks),
            Reply::Rejected(error) => error.to_json(),
            Reply::NotFound => String::new(),
        }
    }

    /// The answer as it goes back to the client.
    pub fn response(&self) -> (r: Response)
        ensures
            r@ == self@.response(),
    {
        Response { status: self.status(), body: self.body() }
    }
}

/// What an address names, seen from the service's base.
enum Route {
    Collection,
    Item(String),
    Unknown,
}

impl View for Route {
    type V = RouteView;

    closed spec fn view(&self) -> RouteView {
        match self {
            Route::Collection => RouteView::Collection,
            Route::Item(id) => RouteView::Item(id@),
            Route::Unknown => RouteView::Unknown,
        }
    }
}

/// The fault in `name`, if any.
fn check_name(doc: &Json) -> (r: Option<ErrorCode>)
    ensures
        r == name_fault(doc@),
{
    match doc.member("name") {
        None => Some(ErrorCode::NameRequired),
        Some(Json::Null) => Some(ErrorCode::NameRequired),
        Some(Json::Text(_)) => None,
        Some(_) => Some(ErrorCode::NameInvalid),
    }
}

/// The fault in `done`, if any.
fn check_done(doc: &Json) -> (r: Option<ErrorCode>)
    ensures
        r == done_fault(doc@),
{
    match doc.member("done") {
        None => Some(ErrorCode::DoneRequired),
        Some(Json::Null) => Some(ErrorCode::DoneRequired),
        Some(Json::Bool(_)) => None,
        Some(_) => Some(ErrorCode::DoneInvalid),
    }
}

/// The fault of a member that should not be there, if any.
fn check_extra(doc: &Json) -> (r: Option<ErrorCode>)
    ensures
        r == extra_fault(doc@),
{
    match doc {
        Json::Object(members) => {
            let name_key = "name".to_owned();
            let done_key = "done".to_owned();
            let ghost all = doc@->Object_0;
            let mut i: usize = 0;
            while i < members.len()
                invariant
                    i <= members.len(),
                    name_key@ == "name"@,
                    done_key@ == "done"@,
                    doc@ == JsonValue::Object(all),
                    all.len() == members@.len(),
                    forall|k: int|
                        0 <= k < members@.len() ==> (#[trigger] all[k]).key == members@[k].key@,
                    forall|k: int|
                        0 <= k < i ==> (#[trigger] all[k]).key == "name"@ || all[k].key == "done"@,
                decreases members.len() - i,
            {
                if members[i].key != name_key && members[i].key != done_key {
                    assert(all[i as int].key != "name"@ && all[i as int].key != "done"@);
                    return Some(ErrorCode::ExtraInvalid);
                }
                i += 1;
            }
            None
        },
        _ => None,
    }
}

/// Everything that is wrong with the body of a create request.
pub fn find_faults(parsed: &Option<Json>) -> (r: Vec<ErrorCode>)
    ensures
        r@ == faults(view_of(*parsed)),
{
    let mut codes: Vec<ErrorCode> = Vec::new();
    match parsed {
        Some(doc) => {
            match doc {
                Json::Object(_) => {
                    let ghost value = doc@;
                    if let Some(code) = check_name(doc) {
                        codes.push(code);
                    }
                    assert(codes@ =~= listed(name_fault(value)));
                    if let Some(code) = check_done(doc) {
                        codes.push(code);
                    }
                    assert(codes@ =~= listed(name_fault(value)) + listed(done_fault(value)));
                    if let Some(code) = check_extra(doc) {
                        codes.push(code);
                    }
                    assert(codes@ =~= listed(name_fault(value)) + listed(done_fault(value))
                        + listed(extra_fault(value)));
                },
                _ => {
                    codes.push(ErrorCode::JsonInvalid);
                    assert(codes@ =~= seq![ErrorCode::JsonInvalid]);
                },
            }
        },
        None => {
            codes.push(ErrorCode::JsonInvalid);
            assert(codes@ =~= seq![ErrorCode::JsonInvalid]);
        },
    }
    codes
}

/// The tasks service, held in memory.
#[derive(Debug)]
pub struct TaskService {
    base: String,
    tasks: Vec<Task>,
}

impl View for TaskService {
    type V = ServiceState;

    closed spec fn view(&self) -> ServiceState {
        ServiceState { base: self.base@, tasks: self.tasks.deep_view() }
    }
}

impl TaskService {
    /// An empty service that answers under `base`.
    pub fn new(base: &str) -> (r: TaskService)
        ensures
            r@ == (ServiceState { base: base@, tasks: Seq::empty() }),
            r@.wf(),
    {
        let service = TaskService { base: base.to_owned(), tasks: Vec::new() };
        assert(service.tasks.deep_view() =~= Seq::<TaskView>::empty());
        service
    }

    /// The number of tasks stored.
    pub fn len(&self) -> (r: usize)
        ensures
            r == self@.tasks.len(),
    {
        self.tasks.len()
    }

    fn next_id(&self) -> (r: String)
        ensures
            r@ == self@.next_id(),
    {
        let n: u128 = self.tasks.len() as u128 + 1;
        decimal_text(n)
    }

    /// Answers a create whose body the parser has read as `parsed`.
    pub fn create(&mut self, parsed: &Option<Json>) -> (r: Reply)
        requires
            old(self)@.wf(),
        ensures
            final(self)@.wf(),
            final(self)@ == create_step(old(self)@, view_of(*parsed)).0,
            r@ == create_step(old(self)@, view_of(*parsed)).1,
    {
        let codes = find_faults(parsed);
        let id = self.next_id();
        let fields: Option<(String, bool)> = match parsed {
            Some(doc) => match (doc.member("name"), doc.member("done")) {
                (Some(Json::Text(name)), Some(Json::Bool(done))) => Some((name.clone(), *done)),
                _ => None,
            },
            None => None,
        };
        match fields {
            Some((name, done)) if codes.len() == 0 => {
                let task = Task { id, name, done: Some(done) };
                let ghost before = self.tasks.deep_view();
                self.tasks.push(task.duplicate());
                assert(self.tasks.deep_view() =~= before.push(task@));
                Reply::Created(task)
            },
            _ => {
                assert(codes.len() > 0) by {
                    if codes.len() == 0 {
                        let value = view_of(*parsed)->0;
                        assert(listed(name_fault(value)).len() == 0);
                        assert(listed(done_fault(value)).len() == 0);
                    }
                }
                let mut error_codes: Vec<String> = Vec::new();
                let mut i: usize = 0;
                while i < codes.len()
                    invariant
                        i <= codes.len(),
                        error_codes@.len() == i,
                        forall|k: int|
                            0 <= k < i ==> (#[trigger] error_codes@[k])@ == codes@[k].text(),
                    decreases codes.len() - i,
                {
                    error_codes.push(codes[i].as_str().to_owned());
                    i += 1;
                }
                assert(error_codes.deep_view() =~= code_texts(codes@));
                Reply::Rejected(
                    TaskError {
                        request_id: id,
                        error_codes,
                        error_type: "invalid_request".to_owned(),
                    },
                )
            },
        }
    }

    /// Answers a fetch of the task `id`.
    pub fn fetch(&self, id: &str) -> (r: Reply)
        ensures
            r@ == fetch_step(self@, id@),
    {
        let wanted = id.to_owned();
        let ghost all = self.tasks.deep_view();
        let mut i: usize = 0;
        assert(all.skip(0) =~= all);
        while i < self.tasks.len()
            invariant
                i <= self.tasks.len(),
                wanted@ == id@,
                all == self.tasks.deep_view(),
                found(all, id@) == found(all.skip(i as int), id@),
            decreases self.tasks.len() - i,
        {
            proof {
                assert(all.skip(i as int)[0] == all[i as int]);
                assert(all.skip(i as int).skip(1) =~= all.skip(i + 1));
            }
            if self.tasks[i].id == wanted {
                return Reply::Found(self.tasks[i].duplicate());
            }
            i += 1;
        }
        Reply::NotFound
    }

    /// Answers a request for the whole list.
    pub fn list(&self) -> (r: Reply)
        ensures
            r@ == ReplyView::Listing(self@.tasks),
    {
        let mut all: Vec<Task> = Vec::new();
        let mut i: usize = 0;
        while i < self.tasks.len()
            invariant
                i <= self.tasks.len(),
                all@.len() == i,
                forall|k: int| 0 <= k < i ==> (#[trigger] all@[k])@ == self.tasks@[k]@,
            decreases self.tasks.len() - i,
        {
            all.push(self.tasks[i].duplicate());
            i += 1;
        }
        assert(all.deep_view() =~= self.tasks.deep_view());
        Reply::Listing(all)
    }

    /// What `url` names for this service.
    fn route(&self, url: &str) -> (r: Route)
        ensures
            r@ == route_of(self@.base, url@),
    {
        let collection = tasks_url(self.base.as_str());
        if url.to_owned() == collection {
            return Route::Collection;
        }
        let mut prefix = collection;
        prefix.append("/");
        let n = url.unicode_len();
        let p = prefix.as_str().unicode_len();
        if p <= n && url.substring_char(0, p).to_owned() == prefix {
            Route::Item(url.substring_char(p, n).to_owned())
        } else {
            Route::Unknown
        }
    }

    /// Answers `request`, whose body the parser has read as `parsed`.
    pub fn answer(&mut self, request: &Request, parsed: &Option<Json>) -> (r: Reply)
        requires
            old(self)@.wf(),
        ensures
            final(self)@.wf(),
            final(self)@ == handle_step(old(self)@, request@, view_of(*parsed)).0,
            r@ == handle_step(old(self)@, request@, view_of(*parsed)).1,
    {
        let route = self.route(request.url.as_str());
        match (request.method, route) {
            (Method::Post, Route::Collection) => self.create(parsed),
            (Method::Get, Route::Collection) => self.list(),
            (Method::Get, Route::Item(id)) => self.fetch(id.as_str()),
            _ => Reply::NotFound,
        }
    }

    /// Answers `request` as the service would over the wire: the body is
    /// parsed, the request answered, and the answer written out.
    pub fn handle(&mut self, request: &Request) -> (r: Response)
        requires
            old(self)@.wf(),
        ensures
            final(self)@.wf(),
            final(self)@ == handle_step(old(self)@, request@, parsed_json(request@.body)).0,
            r@ == handle_step(old(self)@, request@, parsed_json(request@.body)).1.response(),
    {
        let parsed = read_document(request.body.as_str());
        let reply = self.answer(request, &parsed);
        reply.response()
    }
}

} // verus!

//! The contract of the tasks service, written down as a state and the answer
//! to each request: what is stored, which requests change it, and what comes
//! back.
//!
//! The service promises one code for each single fault of a create request,
//! a status in the four hundreds for a rejection, and an empty 404 for what
//! it does not know. Where that leaves a choice, one is made here and named
//! in the comment of the function that makes it: the status of a rejection
//! is 400, several faults are listed in a fixed order, ids count the tasks.

use crate::http::{
    tasks_address, Method, RequestView, ResponseView, BAD_REQUEST, CREATED, NOT_FOUND, OK,
};
use crate::json::{JsonValue, MemberValue};
use crate::numeral::decimal;
use crate::task::{task_error_text, task_text, tasks_text, ErrorCode, TaskErrorView, TaskView};
use vstd::prelude::*;

verus! {

/// What the service holds: the address it answers under and the tasks
/// created so far, oldest first.
pub struct ServiceState {
    pub base: Seq<char>,
    pub tasks: Seq<TaskView>,
}

impl ServiceState {
    /// The id that the next created task receives. Ids count the tasks:
    /// the first is `1`.
    pub open spec fn next_id(self) -> Seq<char> {
        decimal(self.tasks.len() + 1)
    }

    /// Every stored task carries the id it was given when it was created.
    pub open spec fn wf(self) -> bool {
        forall|i: int|
            0 <= i < self.tasks.len() ==> (#[trigger] self.tasks[i]).id == decimal((i + 1) as nat)
    }
}

/// An answer of the service, before it is written out.
pub enum ReplyView {
    Created(TaskView),
    Found(TaskView),
    Listing(Seq<TaskView>),
    Rejected(TaskErrorView),
    NotFound,
}

/// What an address names, seen from the service's base.
pub enum RouteView {
    Collection,
    Item(Seq<char>),
    Unknown,
}

impl ReplyView {
    /// The status that the answer is sent with: 201 for a created task, 200
    /// for a task or a list, 400 for a rejection, 404 for nothing.
    pub open spec fn status(self) -> u16 {
        match self {
            ReplyView::Created(_) => CREATED,
            ReplyView::Found(_) => OK,
            ReplyView::Listing(_) => OK,
            ReplyView::Rejected(_) => BAD_REQUEST,
            ReplyView::NotFound => NOT_FOUND,
        }
    }

    /// The body that the answer is sent with: the JSON text of what it
    /// carries, and no text at all where nothing was found.
    pub open spec fn body(self) -> Seq<char> {
        match self {
            ReplyView::Created(task) => task_text(task),
            ReplyView::Found(task) => task_text(task),
            ReplyView::Listing(tasks) => tasks_text(tasks),
            ReplyView::Rejected(error) => task_error_text(error),
            ReplyView::NotFound => Seq::empty(),
        }
    }

    /// The answer as it goes back to the client.
    pub open spec fn response(self) -> ResponseView {
        ResponseView { status: self.status(), body: self.body() }
    }
}

/// Whether `value` has no member `key`, or has `null` there.
pub open spec fn lacks(value: JsonValue, key: Seq<char>) -> bool {
    value.member(key) is None || value.member(key) == Some(JsonValue::Null)
}

/// Whether the member `key` of `value` is a string.
pub open spec fn holds_text(value: JsonValue, key: Seq<char>) -> bool {
    match value.member(key) {
        Some(JsonValue::Text(_)) => true,
        _ => false,
    }
}

/// Whether the member `key` of `value` is a boolean.
pub open spec fn holds_flag(value: JsonValue, key: Seq<char>) -> bool {
    match value.member(key) {
        Some(JsonValue::Bool(_)) => true,
        _ => false,
    }
}

/// What is wrong with the `name` of a create request, if anything: it is
/// required, and it must be a string.
pub open spec fn name_fault(value: JsonValue) -> Option<ErrorCode> {
    if lacks(value, "name"@) {
        Some(ErrorCode::NameRequired)
    } else if holds_text(value, "name"@) {
        None
    } else {
        Some(ErrorCode::NameInvalid)
    }
}

/// What is wrong with the `done` of a create request, if anything: it is
/// required, and it must be a boolean.
pub open spec fn done_fault(value: JsonValue) -> Option<ErrorCode> {
    if lacks(value, "done"@) {
        Some(ErrorCode::DoneRequired)
    } else if holds_flag(value, "done"@) {
        None
    } else {
        Some(ErrorCode::DoneInvalid)
    }
}

/// Whether some member is neither `name` nor `done`.
pub open spec fn has_extra(members: Seq<MemberValue>) -> bool {
    exists|i: int|
        0 <= i < members.len() && (#[trigger] members[i]).key != "name"@ && members[i].key
            != "done"@
}

/// What is wrong with the members of a create request taken together, if
/// anything: none but `name` and `done` may occur.
pub open spec fn extra_fault(value: JsonValue) -> Option<ErrorCode> {
    match value {
        JsonValue::Object(members) => if has_extra(members) {
            Some(ErrorCode::ExtraInvalid)
        } else {
            None
        },
        _ => None,
    }
}

/// No code, or the one code.
pub open spec fn listed(code: Option<ErrorCode>) -> Seq<ErrorCode> {
    match code {
        Some(c) => seq![c],
        None => Seq::empty(),
    }
}

/// Everything that is wrong with the body of a create request. A body that
/// is no JSON document, or no object, is `json_invalid` and nothing else; an
/// object is held against the rules for `name`, for `done` and for further
/// members, in that order, and every rule it breaks is listed.
pub open spec fn faults(parsed: Option<JsonValue>) -> Seq<ErrorCode> {
    match parsed {
        Some(JsonValue::Object(members)) => {
            let value = JsonValue::Object(members);
            listed(name_fault(value)) + listed(done_fault(value)) + listed(extra_fault(value))
        },
        _ => seq![ErrorCode::JsonInvalid],
    }
}

/// The codes as they are written in `errorCodes`.
pub open spec fn code_texts(codes: Seq<ErrorCode>) -> Seq<Seq<char>> {
    Seq::new(codes.len(), |i: int| codes[i].text())
}

/// The string member `key` of `value`, for a value that has one.
pub open spec fn text_member(value: JsonValue, key: Seq<char>) -> Seq<char> {
    match value.member(key) {
        Some(JsonValue::Text(s)) => s,
        _ => Seq::empty(),
    }
}

/// The boolean member `key` of `value`, for a value that has one.
pub open spec fn flag_member(value: JsonValue, key: Seq<char>) -> bool {
    match value.member(key) {
        Some(JsonValue::Bool(b)) => b,
        _ => false,
    }
}

/// The task that a faultless create request brings into being: it takes the
/// next id, and its name and flag from the request.
pub open spec fn new_task(state: ServiceState, value: JsonValue) -> TaskView {
    TaskView {
        id: state.next_id(),
        name: text_member(value, "name"@),
        done: Some(flag_member(value, "done"@)),
    }
}

/// The body with which a create request is turned down. The request is
/// numbered like the task that it failed to create, and the type of the
/// error is `invalid_request` whatever the codes.
pub open spec fn rejection(state: ServiceState, codes: Seq<ErrorCode>) -> TaskErrorView {
    TaskErrorView {
        request_id: state.next_id(),
        error_codes: code_texts(codes),
        error_type: "invalid_request"@,
    }
}

/// A create: a faultless body adds one task at the end of the store and is
/// answered with that task; any other body leaves the store as it is and is
/// answered with its faults.
pub open spec fn create_step(state: ServiceState, parsed: Option<JsonValue>) -> (
    ServiceState,
    ReplyView,
) {
    let codes = faults(parsed);
    if codes.len() == 0 {
        let task = new_task(state, parsed->0);
        (
            ServiceState { base: state.base, tasks: state.tasks.push(task) },
            ReplyView::Created(task),
        )
    } else {
        (state, ReplyView::Rejected(rejection(state, codes)))
    }
}

/// The first of `tasks` with the id `id`.
pub open spec fn found(tasks: Seq<TaskView>, id: Seq<char>) -> Option<TaskView>
    decreases tasks.len(),
{
    if tasks.len() == 0 {
        None
    } else if tasks[0].id == id {
        Some(tasks[0])
    } else {
        found(tasks.skip(1), id)
    }
}

/// A fetch: the stored task with that id, or nothing.
pub open spec fn fetch_step(state: ServiceState, id: Seq<char>) -> ReplyView {
    match found(state.tasks, id) {
        Some(task) => ReplyView::Found(task),
        None => ReplyView::NotFound,
    }
}

/// What `url` names for a service at `base`: the collection, the task whose
/// id follows the collection's address and a slash, or nothing.
pub open spec fn route_of(base: Seq<char>, url: Seq<char>) -> RouteView {
    let collection = tasks_address(base);
    let prefix = collection + "/"@;
    if url == collection {
        RouteView::Collection
    } else if prefix.len() <= url.len() && url.subrange(0, prefix.len() as int) == prefix {
        RouteView::Item(url.subrange(prefix.len() as int, url.len() as int))
    } else {
        RouteView::Unknown
    }
}

/// The service's answer to any request, and the state it is in afterwards.
/// `parsed` is what the parser makes of the request's body. A `POST` to the
/// collection creates, a `GET` of the collection lists, a `GET` of a task
/// fetches; nothing else is known to the service.
pub open spec fn handle_step(
    state: ServiceState,
    request: RequestView,
    parsed: Option<JsonValue>,
) -> (ServiceState, ReplyView) {
    match (request.method, route_of(state.base, request.url)) {
        (Method::Post, RouteView::Collection) => create_step(state, parsed),
        (Method::Get, RouteView::Collection) => (state, ReplyView::Listing(state.tasks)),
        (Method::Get, RouteView::Item(id)) => (state, fetch_step(state, id)),
        _ => (state, ReplyView::NotFound),
    }
}

} // verus!

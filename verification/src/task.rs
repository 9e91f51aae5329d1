//! The three shapes that travel between a client and the tasks service, and
//! how each is written to and read from JSON.

use crate::json::{
    json_quoted, parsed_json, read_document, view_of, write_string_literal, Json, JsonValue,
};
use vstd::prelude::*;

verus! {

/// A task as the service stores and returns it.
#[derive(Debug, Clone, PartialEq, Eq, PartialOrd, Ord)]
pub struct Task {
    pub id: String,
    pub name: String,
    pub done: Option<bool>,
}

/// The body of a create request. Either field may be left out, which is how a
/// client provokes the service's "required" errors.
#[derive(Debug, Clone, PartialEq, Eq)]
pub struct TaskRequest {
    pub name: Option<String>,
    pub done: Option<bool>,
}

/// The body with which the service turns a request down.
#[derive(Debug, Clone, PartialEq, Eq)]
pub struct TaskError {
    pub request_id: String,
    pub error_codes: Vec<String>,
    pub error_type: String,
}

/// The codes with which the service names what is wrong with a create
/// request.
#[derive(Debug, Clone, Copy, PartialEq, Eq)]
pub enum ErrorCode {
    NameRequired,
    DoneRequired,
    NameInvalid,
    DoneInvalid,
    JsonInvalid,
    ExtraInvalid,
}

impl ErrorCode {
    /// The code as it is written in `errorCodes`.
    pub open spec fn text(self) -> Seq<char> {
        match self {
            ErrorCode::NameRequired => "name_required"@,
            ErrorCode::DoneRequired => "done_required"@,
            ErrorCode::NameInvalid => "name_invalid"@,
            ErrorCode::DoneInvalid => "done_invalid"@,
            ErrorCode::JsonInvalid => "json_invalid"@,
            ErrorCode::ExtraInvalid => "extra_invalid"@,
        }
    }

    /// The code as it is written in `errorCodes`.
    pub fn as_str(&self) -> (r: &'static str)
        ensures
            r@ == self.text(),
    {
        match self {
            ErrorCode::NameRequired => "name_required",
            ErrorCode::DoneRequired => "done_required",
            ErrorCode::NameInvalid => "name_invalid",
            ErrorCode::DoneInvalid => "done_invalid",
            ErrorCode::JsonInvalid => "json_invalid",
            ErrorCode::ExtraInvalid => "extra_invalid",
        }
    }
}

/// Why a text could not be read as the expected shape.
#[derive(Debug, Clone, Copy, PartialEq, Eq)]
pub enum DecodeError {
    /// The text is not a JSON document.
    NotJson,
    /// The text is a JSON document of another shape.
    WrongShape,
}

/// The mathematical value of a [`Task`].
pub struct TaskView {
    pub id: Seq<char>,
    pub name: Seq<char>,
    pub done: Option<bool>,
}

/// The mathematical value of a [`TaskRequest`].
pub struct TaskRequestView {
    pub name: Option<Seq<char>>,
    pub done: Option<bool>,
}

/// The mathematical value of a [`TaskError`].
pub struct TaskErrorView {
    pub request_id: Seq<char>,
    pub error_codes: Seq<Seq<char>>,
    pub error_type: Seq<char>,
}

impl View for Task {
    type V = TaskView;

    open spec fn view(&self) -> TaskView {
        TaskView { id: self.id@, name: self.name@, done: self.done }
    }
}

impl DeepView for Task {
    type V = TaskView;

    open spec fn deep_view(&self) -> TaskView {
        self@
    }
}

impl View for TaskRequest {
    type V = TaskRequestView;

    open spec fn view(&self) -> TaskRequestView {
        TaskRequestView {
            name: match self.name {
                Some(n) => Some(n@),
                None => None,
            },
            done: self.done,
        }
    }
}

impl View for TaskError {
    type V = TaskErrorView;

    open spec fn view(&self) -> TaskErrorView {
        TaskErrorView {
            request_id: self.request_id@,
            error_codes: self.error_codes.deep_view(),
            error_type: self.error_type@,
        }
    }
}

/// How an optional boolean is written: `true`, `false`, or `null` when absent.
pub open spec fn flag_text(flag: Option<bool>) -> Seq<char> {
    match flag {
        Some(true) => "true"@,
        Some(false) => "false"@,
        None => "null"@,
    }
}

/// How an optional member is written: as the literal it has, or `null` when
/// absent.
pub open spec fn optional_text(literal: Option<Seq<char>>) -> Seq<char> {
    match literal {
        Some(text) => text,
        None => "null"@,
    }
}

/// The string as a JSON string literal, where there is one.
pub open spec fn quoted(text: Option<Seq<char>>) -> Option<Seq<char>> {
    match text {
        Some(s) => Some(json_quoted(s)),
        None => None,
    }
}

/// A create request around its two members as they are already written: an
/// object with the members `name` and `done`, in that order, without white
/// space.
pub open spec fn request_frame(name: Option<Seq<char>>, done: Option<bool>) -> Seq<char> {
    "{\"name\":"@ + optional_text(name) + ",\"done\":"@ + flag_text(done) + "}"@
}

/// A task around its members as they are already written: an object with
/// the members `id`, `name` and `done`, in that order, without white space.
pub open spec fn task_frame(id: Seq<char>, name: Seq<char>, done: Option<bool>) -> Seq<char> {
    "{\"id\":"@ + id + ",\"name\":"@ + name + ",\"done\":"@ + flag_text(done) + "}"@
}

/// The JSON text of a create request.
pub open spec fn request_text(request: TaskRequestView) -> Seq<char> {
    request_frame(quoted(request.name), request.done)
}

/// The JSON text of a task.
pub open spec fn task_text(task: TaskView) -> Seq<char> {
    task_frame(json_quoted(task.id), json_quoted(task.name), task.done)
}

/// What an optional boolean member reads as: a missing member and `null` both
/// read as absent, a boolean as itself, and anything else does not read.
pub open spec fn flag_of(member: Option<JsonValue>) -> Option<Option<bool>> {
    match member {
        None => Some(None),
        Some(JsonValue::Null) => Some(None),
        Some(JsonValue::Bool(b)) => Some(Some(b)),
        Some(_) => None,
    }
}

/// The task that a JSON value stands for: an object whose `id` and `name` are
/// strings and whose `done`, where present and not `null`, is a boolean.
/// Members of other names are passed over.
pub open spec fn task_of(value: JsonValue) -> Option<TaskView> {
    match (value.member("id"@), value.member("name"@), flag_of(value.member("done"@))) {
        (Some(JsonValue::Text(id)), Some(JsonValue::Text(name)), Some(done)) => Some(
            TaskView { id, name, done },
        ),
        _ => None,
    }
}

/// What reading a text as a task gives, the parser's result taken as given.
pub open spec fn task_read(parsed: Option<JsonValue>) -> Result<TaskView, DecodeError> {
    match parsed {
        None => Err(DecodeError::NotJson),
        Some(value) => match task_of(value) {
            Some(task) => Ok(task),
            None => Err(DecodeError::WrongShape),
        },
    }
}

/// The strings that a run of JSON values stands for, where each of them is a
/// string.
pub open spec fn texts_of(items: Seq<JsonValue>) -> Option<Seq<Seq<char>>> {
    if forall|i: int| 0 <= i < items.len() ==> (#[trigger] items[i]) is Text {
        Some(Seq::new(items.len(), |i: int| items[i]->Text_0))
    } else {
        None
    }
}

/// The rejection that a JSON value stands for: an object whose `requestId`
/// and `errorType` are strings and whose `errorCodes` is an array of strings.
pub open spec fn task_error_of(value: JsonValue) -> Option<TaskErrorView> {
    match (
        value.member("requestId"@),
        value.member("errorCodes"@),
        value.member("errorType"@),
    ) {
        (
            Some(JsonValue::Text(request_id)),
            Some(JsonValue::Array(items)),
            Some(JsonValue::Text(error_type)),
        ) => match texts_of(items) {
            Some(error_codes) => Some(TaskErrorView { request_id, error_codes, error_type }),
            None => None,
        },
        _ => None,
    }
}

/// What reading a text as a rejection gives, the parser's result taken as
/// given.
pub open spec fn task_error_read(parsed: Option<JsonValue>) -> Result<TaskErrorView, DecodeError> {
    match parsed {
        None => Err(DecodeError::NotJson),
        Some(value) => match task_error_of(value) {
            Some(error) => Ok(error),
            None => Err(DecodeError::WrongShape),
        },
    }
}

/// The tasks that a JSON value stands for: an array each of whose items
/// stands for a task, in the array's order.
pub open spec fn tasks_of(value: JsonValue) -> Option<Seq<TaskView>> {
    match value {
        JsonValue::Array(items) => if forall|i: int|
            0 <= i < items.len() ==> (#[trigger] task_of(items[i])) is Some {
            Some(Seq::new(items.len(), |i: int| task_of(items[i])->0))
        } else {
            None
        },
        _ => None,
    }
}

/// What reading a text as a list of tasks gives, the parser's result taken as
/// given.
pub open spec fn tasks_read(parsed: Option<JsonValue>) -> Result<Seq<TaskView>, DecodeError> {
    match parsed {
        None => Err(DecodeError::NotJson),
        Some(value) => match tasks_of(value) {
            Some(tasks) => Ok(tasks),
            None => Err(DecodeError::WrongShape),
        },
    }
}

/// The texts of `parts` in order, with a comma between neighbours.
pub open spec fn joined(parts: Seq<Seq<char>>) -> Seq<char>
    decreases parts.len(),
{
    if parts.len() == 0 {
        Seq::empty()
    } else if parts.len() == 1 {
        parts[0]
    } else {
        joined(parts.drop_last()) + ","@ + parts.last()
    }
}

/// A JSON array whose items are the given texts.
pub open spec fn array_text(parts: Seq<Seq<char>>) -> Seq<char> {
    "["@ + joined(parts) + "]"@
}

/// The JSON text of a list of tasks.
pub open spec fn tasks_text(tasks: Seq<TaskView>) -> Seq<char> {
    array_text(Seq::new(tasks.len(), |i: int| task_text(tasks[i])))
}

/// A rejection around its members as they are already written: an object
/// with the members `requestId`, `errorCodes` and `errorType`, in that
/// order, without white space.
pub open spec fn task_error_frame(
    request_id: Seq<char>,
    error_codes: Seq<Seq<char>>,
    error_type: Seq<char>,
) -> Seq<char> {
    "{\"requestId\":"@ + request_id + ",\"errorCodes\":"@ + array_text(error_codes)
        + ",\"errorType\":"@ + error_type + "}"@
}

/// The JSON text of a rejection.
pub open spec fn task_error_text(error: TaskErrorView) -> Seq<char> {
    task_error_frame(
        json_quoted(error.request_id),
        Seq::new(error.error_codes.len(), |i: int| json_quoted(error.error_codes[i])),
        json_quoted(error.error_type),
    )
}

fn write_flag(flag: Option<bool>) -> (r: &'static str)
    ensures
        r@ == flag_text(flag),
{
    match flag {
        Some(true) => "true",
        Some(false) => "false",
        None => "null",
    }
}

fn read_flag(member: Option<&Json>) -> (r: Option<Option<bool>>)
    ensures
        r == flag_of(
            match member {
                Some(m) => Some(m@),
                None => None,
            },
        ),
{
    match member {
        None => Some(None),
        Some(Json::Null) => Some(None),
        Some(Json::Bool(b)) => Some(Some(*b)),
        Some(_) => None,
    }
}

/// Writes a create request around its two members. `name` is the name as a
/// JSON string literal, where the request has one.
pub fn frame_request(name: Option<&str>, done: Option<bool>) -> (r: String)
    ensures
        r@ == request_frame(
            match name {
                Some(literal) => Some(literal@),
                None => None,
            },
            done,
        ),
{
    let mut out = "{\"name\":".to_owned();
    match name {
        Some(literal) => {
            out.append(literal);
        },
        None => {
            out.append("null");
        },
    }
    out.append(",\"done\":");
    out.append(write_flag(done));
    out.append("}");
    out
}

/// Writes a task around its members. `id` and `name` are JSON string
/// literals.
pub fn frame_task(id: &str, name: &str, done: Option<bool>) -> (r: String)
    ensures
        r@ == task_frame(id@, name@, done),
{
    let mut out = "{\"id\":".to_owned();
    out.append(id);
    out.append(",\"name\":");
    out.append(name);
    out.append(",\"done\":");
    out.append(write_flag(done));
    out.append("}");
    out
}

/// Writes a rejection around its members. `request_id`, `error_type` and
/// each of `error_codes` are JSON string literals.
pub fn frame_task_error(request_id: &str, error_codes: &Vec<String>, error_type: &str) -> (r:
    String)
    ensures
        r@ == task_error_frame(request_id@, error_codes.deep_view(), error_type@),
{
    let mut out = "{\"requestId\":".to_owned();
    out.append(request_id);
    out.append(",\"errorCodes\":");
    let list = write_array(error_codes);
    out.append(list.as_str());
    out.append(",\"errorType\":");
    out.append(error_type);
    out.append("}");
    out
}

impl TaskRequest {
    /// Writes the request as the JSON text that goes on the wire.
    pub fn to_json(&self) -> (r: String)
        ensures
            r@ == request_text(self@),
    {
        match &self.name {
            Some(name) => {
                let literal = write_string_literal(name.as_str());
                frame_request(Some(literal.as_str()), self.done)
            },
            None => frame_request(None, self.done),
        }
    }
}

impl Task {
    /// Writes the task as JSON text.
    pub fn to_json(&self) -> (r: String)
        ensures
            r@ == task_text(self@),
    {
        let id = write_string_literal(self.id.as_str());
        let name = write_string_literal(self.name.as_str());
        frame_task(id.as_str(), name.as_str(), self.done)
    }

    /// Reads a task out of a JSON document.
    pub fn from_json(doc: &Json) -> (r: Option<Task>)
        ensures
            match r {
                Some(task) => task_of(doc@) == Some(task@),
                None => task_of(doc@) is None,
            },
    {
        let id = match doc.member("id") {
            Some(Json::Text(s)) => s.clone(),
            _ => {
                return None;
            },
        };
        let name = match doc.member("name") {
            Some(Json::Text(s)) => s.clone(),
            _ => {
                return None;
            },
        };
        match read_flag(doc.member("done")) {
            Some(done) => Some(Task { id, name, done }),
            None => None,
        }
    }

    /// Reads a task out of a response body.
    pub fn from_text(text: &str) -> (r: Result<Task, DecodeError>)
        ensures
            match r {
                Ok(task) => task_read(parsed_json(text@)) == Ok::<TaskView, DecodeError>(task@),
                Err(e) => task_read(parsed_json(text@)) == Err::<TaskView, DecodeError>(e),
            },
    {
        Task::read(&read_document(text))
    }

    /// Turns the outcome of parsing a body into a task or the reason why
    /// there is none.
    pub fn read(parsed: &Option<Json>) -> (r: Result<Task, DecodeError>)
        ensures
            match r {
                Ok(task) => task_read(view_of(*parsed)) == Ok::<TaskView, DecodeError>(task@),
                Err(e) => task_read(view_of(*parsed)) == Err::<TaskView, DecodeError>(e),
            },
    {
        match parsed {
            None => Err(DecodeError::NotJson),
            Some(doc) => match Task::from_json(doc) {
                Some(task) => Ok(task),
                None => Err(DecodeError::WrongShape),
            },
        }
    }

    /// Whether two tasks agree field for field.
    pub fn same_as(&self, other: &Task) -> (r: bool)
        ensures
            r == (self@ == other@),
    {
        let done_agrees = match (self.done, other.done) {
            (Some(a), Some(b)) => a == b,
            (None, None) => true,
            _ => false,
        };
        self.id == other.id && self.name == other.name && done_agrees
    }

    /// A second task with the same fields.
    pub fn duplicate(&self) -> (r: Task)
        ensures
            r@ == self@,
    {
        Task { id: self.id.clone(), name: self.name.clone(), done: self.done }
    }
}

/// Writes the given texts as the items of a JSON array.
fn write_array(parts: &Vec<String>) -> (r: String)
    ensures
        r@ == array_text(parts.deep_view()),
{
    let ghost texts = parts.deep_view();
    let mut out = "[".to_owned();
    let mut i: usize = 0;
    while i < parts.len()
        invariant
            i <= parts.len(),
            texts == parts.deep_view(),
            out@ == "["@ + joined(texts.take(i as int)),
        decreases parts.len() - i,
    {
        proof {
            let before = texts.take(i as int);
            let after = texts.take(i + 1);
            assert(after.drop_last() =~= before);
            assert(after.last() == parts@[i as int]@);
            if i == 0 {
                assert(joined(before) =~= Seq::<char>::empty());
                assert("["@ + joined(before) + parts@[i as int]@ =~= "["@ + joined(after));
            } else {
                assert("["@ + joined(before) + ","@ + parts@[i as int]@ =~= "["@ + joined(after));
            }
        }
        if i > 0 {
            out.append(",");
        }
        out.append(parts[i].as_str());
        i += 1;
    }
    proof {
        assert(texts.take(i as int) =~= texts);
    }
    out.append("]");
    out
}

/// Writes a list of tasks as JSON text.
pub fn tasks_to_json(tasks: &Vec<Task>) -> (r: String)
    ensures
        r@ == tasks_text(tasks.deep_view()),
{
    let mut parts: Vec<String> = Vec::new();
    let mut i: usize = 0;
    while i < tasks.len()
        invariant
            i <= tasks.len(),
            parts@.len() == i,
            forall|k: int| 0 <= k < i ==> (#[trigger] parts@[k])@ == task_text(tasks@[k]@),
        decreases tasks.len() - i,
    {
        parts.push(tasks[i].to_json());
        i += 1;
    }
    proof {
        let views = tasks.deep_view();
        assert(parts.deep_view() =~= Seq::new(views.len(), |i: int| task_text(views[i])));
    }
    write_array(&parts)
}

/// Reads a list of tasks out of a JSON document.
pub fn tasks_from_json(doc: &Json) -> (r: Option<Vec<Task>>)
    ensures
        match r {
            Some(tasks) => tasks_of(doc@) == Some(tasks.deep_view()),
            None => tasks_of(doc@) is None,
        },
{
    match doc.as_array() {
        None => None,
        Some(items) => {
            let ghost values = doc@->Array_0;
            let mut tasks: Vec<Task> = Vec::new();
            let mut i: usize = 0;
            while i < items.len()
                invariant
                    i <= items.len(),
                    doc@ == JsonValue::Array(values),
                    values.len() == items@.len(),
                    forall|k: int| 0 <= k < items@.len() ==> values[k] == (#[trigger] items@[k])@,
                    tasks@.len() == i,
                    forall|k: int|
                        0 <= k < i ==> #[trigger] task_of(values[k]) == Some(tasks@[k]@),
                decreases items.len() - i,
            {
                match Task::from_json(&items[i]) {
                    Some(task) => {
                        tasks.push(task);
                    },
                    None => {
                        assert(task_of(values[i as int]) is None);
                        return None;
                    },
                }
                i += 1;
            }
            proof {
                assert(tasks.deep_view() =~= Seq::new(
                    values.len(),
                    |i: int| task_of(values[i])->0,
                ));
            }
            Some(tasks)
        },
    }
}

/// Turns the outcome of parsing a body into a list of tasks or the reason why
/// there is none.
pub fn read_tasks(parsed: &Option<Json>) -> (r: Result<Vec<Task>, DecodeError>)
    ensures
        match r {
            Ok(tasks) => tasks_read(view_of(*parsed)) == Ok::<Seq<TaskView>, DecodeError>(
                tasks.deep_view(),
            ),
            Err(e) => tasks_read(view_of(*parsed)) == Err::<Seq<TaskView>, DecodeError>(e),
        },
{
    match parsed {
        None => Err(DecodeError::NotJson),
        Some(doc) => match tasks_from_json(doc) {
            Some(tasks) => Ok(tasks),
            None => Err(DecodeError::WrongShape),
        },
    }
}

/// Reads a list of tasks out of a response body.
pub fn tasks_from_text(text: &str) -> (r: Result<Vec<Task>, DecodeError>)
    ensures
        match r {
            Ok(tasks) => tasks_read(parsed_json(text@)) == Ok::<Seq<TaskView>, DecodeError>(
                tasks.deep_view(),
            ),
            Err(e) => tasks_read(parsed_json(text@)) == Err::<Seq<TaskView>, DecodeError>(e),
        },
{
    read_tasks(&read_document(text))
}

impl TaskError {
    /// Writes the rejection as JSON text.
    pub fn to_json(&self) -> (r: String)
        ensures
            r@ == task_error_text(self@),
    {
        let mut codes: Vec<String> = Vec::new();
        let mut i: usize = 0;
        while i < self.error_codes.len()
            invariant
                i <= self.error_codes.len(),
                codes@.len() == i,
                forall|k: int|
                    0 <= k < i ==> (#[trigger] codes@[k])@ == json_quoted(self.error_codes@[k]@),
            decreases self.error_codes.len() - i,
        {
            codes.push(write_string_literal(self.error_codes[i].as_str()));
            i += 1;
        }
        proof {
            let views = self.error_codes.deep_view();
            assert(codes.deep_view() =~= Seq::new(views.len(), |i: int| json_quoted(views[i])));
        }
        let request_id = write_string_literal(self.request_id.as_str());
        let error_type = write_string_literal(self.error_type.as_str());
        frame_task_error(request_id.as_str(), &codes, error_type.as_str())
    }

    /// Reads a rejection out of a JSON document.
    pub fn from_json(doc: &Json) -> (r: Option<TaskError>)
        ensures
            match r {
                Some(error) => task_error_of(doc@) == Some(error@),
                None => task_error_of(doc@) is None,
            },
    {
        let request_id = match doc.member("requestId") {
            Some(Json::Text(s)) => s.clone(),
            _ => {
                return None;
            },
        };
        let error_type = match doc.member("errorType") {
            Some(Json::Text(s)) => s.clone(),
            _ => {
                return None;
            },
        };
        let listed = match doc.member("errorCodes") {
            Some(found) => found,
            None => {
                return None;
            },
        };
        let items = match listed.as_array() {
            Some(items) => items,
            None => {
                return None;
            },
        };
        let ghost values = listed@->Array_0;
        let ghost outcome = match texts_of(values) {
            Some(codes) => Some(
                TaskErrorView { request_id: request_id@, error_codes: codes, error_type: error_type@ },
            ),
            None => None,
        };
        let mut error_codes: Vec<String> = Vec::new();
        let mut i: usize = 0;
        while i < items.len()
            invariant
                i <= items.len(),
                task_error_of(doc@) == outcome,
                outcome == match texts_of(values) {
                    Some(codes) => Some(
                        TaskErrorView {
                            request_id: request_id@,
                            error_codes: codes,
                            error_type: error_type@,
                        },
                    ),
                    None => None,
                },
                values.len() == items@.len(),
                forall|k: int| 0 <= k < items@.len() ==> values[k] == (#[trigger] items@[k])@,
                error_codes@.len() == i,
                forall|k: int|
                    0 <= k < i ==> #[trigger] values[k] == JsonValue::Text(error_codes@[k]@),
            decreases items.len() - i,
        {
            match &items[i] {
                Json::Text(code) => {
                    error_codes.push(code.clone());
                },
                _ => {
                    assert(!(values[i as int] is Text));
                    return None;
                },
            }
            i += 1;
        }
        proof {
            assert(error_codes.deep_view() =~= Seq::new(
                values.len(),
                |i: int| values[i]->Text_0,
            ));
        }
        Some(TaskError { request_id, error_codes, error_type })
    }

    /// Turns the outcome of parsing a body into a rejection or the reason why
    /// there is none.
    pub fn read(parsed: &Option<Json>) -> (r: Result<TaskError, DecodeError>)
        ensures
            match r {
                Ok(error) => task_error_read(view_of(*parsed)) == Ok::<TaskErrorView, DecodeError>(
                    error@,
                ),
                Err(e) => task_error_read(view_of(*parsed)) == Err::<TaskErrorView, DecodeError>(e),
            },
    {
        match parsed {
            None => Err(DecodeError::NotJson),
            Some(doc) => match TaskError::from_json(doc) {
                Some(error) => Ok(error),
                None => Err(DecodeError::WrongShape),
            },
        }
    }

    /// Reads a rejection out of a response body.
    pub fn from_text(text: &str) -> (r: Result<TaskError, DecodeError>)
        ensures
            match r {
                Ok(error) => task_error_read(parsed_json(text@)) == Ok::<
                    TaskErrorView,
                    DecodeError,
                >(error@),
                Err(e) => task_error_read(parsed_json(text@)) == Err::<TaskErrorView, DecodeError>(
                    e,
                ),
            },
    {
        TaskError::read(&read_document(text))
    }
}

} // verus!

//! The conformance checks: for each behaviour that the contract of the tasks
//! service names, the requests that probe it and the verdict on what came
//! back.
//!
//! A check never sends anything itself. It is asked for its next step with
//! the exchanges seen so far, and answers with a request to send or with its
//! verdict; whoever drives it performs the request and comes back with the
//! response.

use crate::http::{
    get, get_of, post_json, post_of, route_url, task_address, task_url, tasks_address, tasks_url,
    Request, RequestView, Response, ResponseView, CREATED, NOT_FOUND, OK,
};
use crate::json::{parsed_json, read_document, view_of, Json, JsonValue};
use crate::scenario::{fixed_payload, fixed_request};
use crate::task::{
    read_tasks, request_text, task_error_read, task_read, tasks_read, ErrorCode, Task, TaskError,
    TaskRequest, TaskRequestView, TaskView,
};
use vstd::prelude::*;

verus! {

/// The behaviours that the contract names, one check each.
#[derive(Debug, Clone, Copy, PartialEq, Eq)]
pub enum Check {
    CreateSucceeds,
    ListReflectsCreation,
    MissingName,
    MissingDone,
    WrongTypeName,
    WrongTypeDone,
    MalformedJson,
    UnknownExtraField,
    FetchById,
    FetchUnknownId,
    FetchUnknownRoute,
}

/// A response as the checks look at it: status, body, and the body as the
/// parser reads it.
#[derive(Debug)]
pub struct Exchange {
    pub status: u16,
    pub body: String,
    pub json: Option<Json>,
}

/// The mathematical value of an [`Exchange`].
pub struct ExchangeView {
    pub status: u16,
    pub body: Seq<char>,
    pub json: Option<JsonValue>,
}

impl View for Exchange {
    type V = ExchangeView;

    open spec fn view(&self) -> ExchangeView {
        ExchangeView { status: self.status, body: self.body@, json: view_of(self.json) }
    }
}

impl DeepView for Exchange {
    type V = ExchangeView;

    open spec fn deep_view(&self) -> ExchangeView {
        self@
    }
}

/// What a check does next.
#[derive(Debug)]
pub enum Step {
    /// Send this request and come back with the response.
    Send(Request),
    /// The service behaved as the contract says.
    Passed,
    /// The service did not.
    Failed,
}

/// The mathematical value of a [`Step`].
pub enum StepView {
    Send(RequestView),
    Passed,
    Failed,
}

impl View for Step {
    type V = StepView;

    open spec fn view(&self) -> StepView {
        match self {
            Step::Send(request) => StepView::Send(request@),
            Step::Passed => StepView::Passed,
            Step::Failed => StepView::Failed,
        }
    }
}

/// A response together with what the parser makes of its body.
pub open spec fn observed(response: ResponseView) -> ExchangeView {
    ExchangeView {
        status: response.status,
        body: response.body,
        json: parsed_json(response.body),
    }
}

/// The verdict for a condition.
pub open spec fn verdict(holds: bool) -> StepView {
    if holds {
        StepView::Passed
    } else {
        StepView::Failed
    }
}

/// The task with which a create of `request` was answered as it should be:
/// the request names a task and says whether it is done, the status is 201,
/// and the body is a task with that name and that flag.
pub open spec fn created_echo(seen: ExchangeView, request: TaskRequestView) -> Option<TaskView> {
    match (task_read(seen.json), request.name, request.done) {
        (Ok(task), Some(name), Some(done)) => if seen.status == CREATED && task.name == name
            && task.done == Some(done) {
            Some(task)
        } else {
            None
        },
        _ => None,
    }
}

/// Whether a create was turned down with exactly the one code: a status in
/// the four hundreds and a rejection whose `errorCodes` holds `code` and
/// nothing else.
pub open spec fn rejected_with(seen: ExchangeView, code: ErrorCode) -> bool {
    &&& 400 <= seen.status <= 499
    &&& task_error_read(seen.json) matches Ok(error)
    &&& error.error_codes == seq![code.text()]
}

/// Whether a fetch came back with status 200 and exactly `task`.
pub open spec fn fetched(seen: ExchangeView, task: TaskView) -> bool {
    seen.status == OK && task_read(seen.json) == Ok::<TaskView, crate::task::DecodeError>(task)
}

/// Whether nothing was found and nothing said: status 404 and an empty body.
pub open spec fn bare_not_found(seen: ExchangeView) -> bool {
    seen.status == NOT_FOUND && seen.body.len() == 0
}

/// Whether a create of `request` shows in the list: both listings read as
/// lists of tasks, the create was answered as it should be, and the later
/// list is longer by one task, the created one, which stands last.
pub open spec fn list_grew(
    before: ExchangeView,
    create: ExchangeView,
    after: ExchangeView,
    request: TaskRequestView,
) -> bool {
    &&& tasks_read(before.json) matches Ok(earlier)
    &&& created_echo(create, request) matches Some(task)
    &&& tasks_read(after.json) matches Ok(later)
    &&& later.len() == earlier.len() + 1
    &&& later.last() == task
}

impl Check {
    /// The code that the check expects, for the checks that provoke a fault.
    pub open spec fn expected_code(self) -> Option<ErrorCode> {
        match self {
            Check::MissingName => Some(ErrorCode::NameRequired),
            Check::MissingDone => Some(ErrorCode::DoneRequired),
            Check::WrongTypeName => Some(ErrorCode::NameInvalid),
            Check::WrongTypeDone => Some(ErrorCode::DoneInvalid),
            Check::MalformedJson => Some(ErrorCode::JsonInvalid),
            Check::UnknownExtraField => Some(ErrorCode::ExtraInvalid),
            _ => None,
        }
    }

    /// The name of the check, for reports.
    pub open spec fn label(self) -> Seq<char> {
        match self {
            Check::CreateSucceeds => "create succeeds"@,
            Check::ListReflectsCreation => "list reflects creations"@,
            Check::MissingName => "missing name"@,
            Check::MissingDone => "missing done"@,
            Check::WrongTypeName => "wrong type for name"@,
            Check::WrongTypeDone => "wrong type for done"@,
            Check::MalformedJson => "malformed JSON"@,
            Check::UnknownExtraField => "unknown extra field"@,
            Check::FetchById => "fetch by id"@,
            Check::FetchUnknownId => "fetch unknown id"@,
            Check::FetchUnknownRoute => "fetch unknown route"@,
        }
    }

    /// The body that the check posts to the collection, for the checks that
    /// post one.
    pub open spec fn posted(self) -> Option<Seq<char>> {
        match self {
            Check::CreateSucceeds => Some(request_text(fixed_request())),
            Check::ListReflectsCreation => Some(request_text(fixed_request())),
            Check::FetchById => Some(request_text(fixed_request())),
            Check::MissingName => Some(
                request_text(TaskRequestView { name: None, done: Some(false) }),
            ),
            Check::MissingDone => Some(
                request_text(TaskRequestView { name: Some("foo"@), done: None }),
            ),
            Check::WrongTypeName => Some("{\"name\":123,\"done\":false}"@),
            Check::WrongTypeDone => Some("{\"name\":\"foo\",\"done\":123}"@),
            Check::MalformedJson => Some("{,,"@),
            Check::UnknownExtraField => Some(
                "{ \"name\": \"foo\", \"done\": true, \"extra\": \"foo\" }"@,
            ),
            Check::FetchUnknownId => None,
            Check::FetchUnknownRoute => None,
        }
    }

    /// The create that the check sends to a service at `base`.
    pub open spec fn create_of(self, base: Seq<char>) -> RequestView {
        post_of(tasks_address(base), self.posted()->0)
    }

    /// The next step of the check against a service at `base`, given the
    /// exchanges `seen` so far, oldest first.
    pub open spec fn step_of(self, base: Seq<char>, seen: Seq<ExchangeView>) -> StepView {
        match self {
            Check::CreateSucceeds => if seen.len() == 0 {
                StepView::Send(self.create_of(base))
            } else {
                verdict(created_echo(seen[0], fixed_request()) is Some)
            },
            Check::ListReflectsCreation => if seen.len() == 0 {
                StepView::Send(get_of(tasks_address(base)))
            } else if seen.len() == 1 {
                StepView::Send(self.create_of(base))
            } else if seen.len() == 2 {
                StepView::Send(get_of(tasks_address(base)))
            } else {
                verdict(list_grew(seen[0], seen[1], seen[2], fixed_request()))
            },
            Check::FetchById => if seen.len() == 0 {
                StepView::Send(self.create_of(base))
            } else {
                match created_echo(seen[0], fixed_request()) {
                    Some(task) => if task.id.len() == 0 {
                        StepView::Failed
                    } else if seen.len() == 1 {
                        StepView::Send(get_of(task_address(base, task.id)))
                    } else {
                        verdict(fetched(seen[1], task))
                    },
                    None => StepView::Failed,
                }
            },
            Check::FetchUnknownId => if seen.len() == 0 {
                StepView::Send(get_of(task_address(base, "foo"@)))
            } else {
                verdict(bare_not_found(seen[0]))
            },
            Check::FetchUnknownRoute => if seen.len() == 0 {
                StepView::Send(get_of(base + "/foo"@))
            } else {
                verdict(bare_not_found(seen[0]))
            },
            _ => if seen.len() == 0 {
                StepView::Send(self.create_of(base))
            } else {
                verdict(rejected_with(seen[0], self.expected_code()->0))
            },
        }
    }
}

impl Exchange {
    /// Takes a response in, parsing its body once for the checks to read.
    pub fn observe(response: Response) -> (r: Exchange)
        ensures
            r@ == observed(response@),
    {
        let json = read_document(response.body.as_str());
        Exchange { status: response.status, body: response.body, json }
    }
}

fn passed_if(holds: bool) -> (r: Step)
    ensures
        r@ == verdict(holds),
{
    if holds {
        Step::Passed
    } else {
        Step::Failed
    }
}

/// The task with which a create of `request` was answered, where it was
/// answered as it should be.
pub fn created(seen: &Exchange, request: &TaskRequest) -> (r: Option<Task>)
    ensures
        match r {
            Some(task) => created_echo(seen@, request@) == Some(task@),
            None => created_echo(seen@, request@) is None,
        },
{
    match (Task::read(&seen.json), &request.name, request.done) {
        (Ok(task), Some(name), Some(done)) => {
            let named = task.name == *name;
            let flagged = match task.done {
                Some(flag) => flag == done,
                None => false,
            };
            if seen.status == CREATED && named && flagged {
                Some(task)
            } else {
                None
            }
        },
        _ => None,
    }
}

/// Whether a create was turned down with exactly the one code.
pub fn is_rejected_with(seen: &Exchange, code: ErrorCode) -> (r: bool)
    ensures
        r == rejected_with(seen@, code),
{
    if seen.status < 400 || seen.status > 499 {
        return false;
    }
    match TaskError::read(&seen.json) {
        Ok(error) => {
            if error.error_codes.len() != 1 {
                assert(error@.error_codes.len() == error.error_codes@.len());
                assert(seq![code.text()].len() == 1);
                return false;
            }
            let same = error.error_codes[0] == code.as_str().to_owned();
            proof {
                let codes = error@.error_codes;
                assert(codes[0] == error.error_codes@[0]@);
                if same {
                    assert(codes =~= seq![code.text()]);
                } else {
                    assert(seq![code.text()][0] == code.text());
                }
            }
            same
        },
        Err(_) => false,
    }
}

/// Whether a fetch came back with status 200 and exactly `task`.
pub fn is_fetched(seen: &Exchange, task: &Task) -> (r: bool)
    ensures
        r == fetched(seen@, task@),
{
    match Task::read(&seen.json) {
        Ok(got) => seen.status == OK && got.same_as(task),
        Err(_) => false,
    }
}

/// Whether nothing was found and nothing said.
pub fn is_bare_not_found(seen: &Exchange) -> (r: bool)
    ensures
        r == bare_not_found(seen@),
{
    seen.status == NOT_FOUND && seen.body.as_str().unicode_len() == 0
}

/// Whether a create of `request` shows in the list.
pub fn has_list_grown(
    before: &Exchange,
    create: &Exchange,
    after: &Exchange,
    request: &TaskRequest,
) -> (r: bool)
    ensures
        r == list_grew(before@, create@, after@, request@),
{
    let earlier = match read_tasks(&before.json) {
        Ok(tasks) => tasks,
        Err(_) => {
            return false;
        },
    };
    let task = match created(create, request) {
        Some(task) => task,
        None => {
            return false;
        },
    };
    let later = match read_tasks(&after.json) {
        Ok(tasks) => tasks,
        Err(_) => {
            return false;
        },
    };
    if earlier.len() == usize::MAX || later.len() != earlier.len() + 1 {
        return false;
    }
    let last = &later[later.len() - 1];
    assert(later.deep_view().last() == last@);
    last.same_as(&task)
}

impl Check {
    /// Every check, in the order of the table.
    pub fn all() -> (r: Vec<Check>)
        ensures
            r@ == seq![
                Check::CreateSucceeds,
                Check::ListReflectsCreation,
                Check::MissingName,
                Check::MissingDone,
                Check::WrongTypeName,
                Check::WrongTypeDone,
                Check::MalformedJson,
                Check::UnknownExtraField,
                Check::FetchById,
                Check::FetchUnknownId,
                Check::FetchUnknownRoute,
            ],
    {
        let mut all: Vec<Check> = Vec::new();
        all.push(Check::CreateSucceeds);
        all.push(Check::ListReflectsCreation);
        all.push(Check::MissingName);
        all.push(Check::MissingDone);
        all.push(Check::WrongTypeName);
        all.push(Check::WrongTypeDone);
        all.push(Check::MalformedJson);
        all.push(Check::UnknownExtraField);
        all.push(Check::FetchById);
        all.push(Check::FetchUnknownId);
        all.push(Check::FetchUnknownRoute);
        all
    }

    /// The name of the check, for reports.
    pub fn title(&self) -> (r: &'static str)
        ensures
            r@ == self.label(),
    {
        match self {
            Check::CreateSucceeds => "create succeeds",
            Check::ListReflectsCreation => "list reflects creations",
            Check::MissingName => "missing name",
            Check::MissingDone => "missing done",
            Check::WrongTypeName => "wrong type for name",
            Check::WrongTypeDone => "wrong type for done",
            Check::MalformedJson => "malformed JSON",
            Check::UnknownExtraField => "unknown extra field",
            Check::FetchById => "fetch by id",
            Check::FetchUnknownId => "fetch unknown id",
            Check::FetchUnknownRoute => "fetch unknown route",
        }
    }

    /// The code that the check expects, for the checks that provoke a fault.
    pub fn code(&self) -> (r: Option<ErrorCode>)
        ensures
            r == self.expected_code(),
    {
        match self {
            Check::MissingName => Some(ErrorCode::NameRequired),
            Check::MissingDone => Some(ErrorCode::DoneRequired),
            Check::WrongTypeName => Some(ErrorCode::NameInvalid),
            Check::WrongTypeDone => Some(ErrorCode::DoneInvalid),
            Check::MalformedJson => Some(ErrorCode::JsonInvalid),
            Check::UnknownExtraField => Some(ErrorCode::ExtraInvalid),
            _ => None,
        }
    }

    /// The body that the check posts to the collection, for the checks that
    /// post one.
    pub fn body(&self) -> (r: Option<String>)
        ensures
            match r {
                Some(text) => self.posted() == Some(text@),
                None => self.posted() is None,
            },
    {
        match self {
            Check::CreateSucceeds | Check::ListReflectsCreation | Check::FetchById => Some(
                fixed_payload().to_json(),
            ),
            Check::MissingName => Some(TaskRequest { name: None, done: Some(false) }.to_json()),
            Check::MissingDone => Some(
                TaskRequest { name: Some("foo".to_owned()), done: None }.to_json(),
            ),
            Check::WrongTypeName => Some("{\"name\":123,\"done\":false}".to_owned()),
            Check::WrongTypeDone => Some("{\"name\":\"foo\",\"done\":123}".to_owned()),
            Check::MalformedJson => Some("{,,".to_owned()),
            Check::UnknownExtraField => Some(
                "{ \"name\": \"foo\", \"done\": true, \"extra\": \"foo\" }".to_owned(),
            ),
            Check::FetchUnknownId | Check::FetchUnknownRoute => None,
        }
    }

    fn create(&self, base: &str) -> (r: Step)
        requires
            self.posted() is Some,
        ensures
            r@ == StepView::Send(self.create_of(base@)),
    {
        match self.body() {
            Some(body) => Step::Send(post_json(tasks_url(base), body.as_str())),
            None => Step::Failed,
        }
    }

    /// The next step of the check against a service at `base`, given the
    /// exchanges `seen` so far, oldest first.
    ///
    /// No check asks for more than three exchanges.
    pub fn step(&self, base: &str, seen: &Vec<Exchange>) -> (r: Step)
        ensures
            r@ == self.step_of(base@, seen.deep_view()),
            seen@.len() >= 3 ==> !(r@ is Send),
    {
        let ghost views = seen.deep_view();
        assert(forall|k: int| 0 <= k < seen@.len() ==> views[k] == (#[trigger] seen@[k])@);
        match self {
            Check::CreateSucceeds => {
                if seen.len() == 0 {
                    self.create(base)
                } else {
                    passed_if(created(&seen[0], &fixed_payload()).is_some())
                }
            },
            Check::ListReflectsCreation => {
                if seen.len() == 0 {
                    Step::Send(get(tasks_url(base)))
                } else if seen.len() == 1 {
                    self.create(base)
                } else if seen.len() == 2 {
                    Step::Send(get(tasks_url(base)))
                } else {
                    passed_if(has_list_grown(&seen[0], &seen[1], &seen[2], &fixed_payload()))
                }
            },
            Check::FetchById => {
                if seen.len() == 0 {
                    self.create(base)
                } else {
                    match created(&seen[0], &fixed_payload()) {
                        Some(task) => {
                            if task.id.as_str().unicode_len() == 0 {
                                Step::Failed
                            } else if seen.len() == 1 {
                                Step::Send(get(task_url(base, task.id.as_str())))
                            } else {
                                passed_if(is_fetched(&seen[1], &task))
                            }
                        },
                        None => Step::Failed,
                    }
                }
            },
            Check::FetchUnknownId => {
                if seen.len() == 0 {
                    Step::Send(get(task_url(base, "foo")))
                } else {
                    passed_if(is_bare_not_found(&seen[0]))
                }
            },
            Check::FetchUnknownRoute => {
                if seen.len() == 0 {
                    Step::Send(get(route_url(base, "/foo")))
                } else {
                    passed_if(is_bare_not_found(&seen[0]))
                }
            },
            _ => {
                if seen.len() == 0 {
                    self.create(base)
                } else {
                    match self.code() {
                        Some(code) => passed_if(is_rejected_with(&seen[0], code)),
                        None => Step::Failed,
                    }
                }
            },
        }
    }
}

} // verus!

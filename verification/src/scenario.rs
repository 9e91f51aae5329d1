//! The load scenario: one task created at startup, then two workloads that a
//! scheduler runs side by side, each request judged by its status alone.

use crate::http::{
    api_address, api_url, get, get_of, post_json, post_of, task_address, task_url, tasks_address,
    tasks_url, Request, RequestView, CREATED, OK,
};
use crate::json::parsed_json;
use crate::task::{
    request_text, task_read, DecodeError, Task, TaskRequest, TaskRequestView, TaskView,
};
use vstd::prelude::*;

verus! {

/// A unit of work that a scheduler hands to its workers again and again.
#[derive(Debug, Clone, Copy, PartialEq, Eq)]
pub enum Workload {
    /// Creates one task with the fixed payload.
    CreateTask,
    /// Fetches the task that was captured at startup.
    GetTask,
}

/// Why a request counts as failed.
#[derive(Debug, Clone, Copy, PartialEq, Eq)]
pub enum FailureReason {
    /// The transport gave no response.
    NoResponse,
    /// A response came with a status other than the one the workload expects.
    UnexpectedStatus(u16),
}

/// How one exchange of a workload is counted.
#[derive(Debug, Clone, Copy, PartialEq, Eq)]
pub enum RequestOutcome {
    Success,
    Failed(FailureReason),
}

/// What stops the scenario before the workloads start.
#[derive(Debug, Clone, Copy, PartialEq, Eq)]
pub enum StartupError {
    /// No endpoint is configured.
    MissingEndpoint,
    /// The answer to the startup create is not a task.
    NoTask(DecodeError),
}

/// The payload of every create that the scenario sends: the task `foo`, not
/// done.
pub open spec fn fixed_request() -> TaskRequestView {
    TaskRequestView { name: Some("foo"@), done: Some(false) }
}

impl Workload {
    /// The status that counts as success.
    pub open spec fn expected(self) -> u16 {
        match self {
            Workload::CreateTask => CREATED,
            Workload::GetTask => OK,
        }
    }

    /// The name under which the workload is registered.
    pub open spec fn label(self) -> Seq<char> {
        match self {
            Workload::CreateTask => "Create Tasks"@,
            Workload::GetTask => "Get Tasks"@,
        }
    }

    /// The request of one iteration.
    pub open spec fn request_of(self, base: Seq<char>, task_id: Seq<char>) -> RequestView {
        match self {
            Workload::CreateTask => post_of(tasks_address(base), request_text(fixed_request())),
            Workload::GetTask => get_of(task_address(base, task_id)),
        }
    }

    /// How an exchange counts: a success exactly when a response came and
    /// carries the expected status.
    pub open spec fn outcome_of(self, status: Option<u16>) -> RequestOutcome {
        match status {
            None => RequestOutcome::Failed(FailureReason::NoResponse),
            Some(code) => if code == self.expected() {
                RequestOutcome::Success
            } else {
                RequestOutcome::Failed(FailureReason::UnexpectedStatus(code))
            },
        }
    }

    /// The status that counts as success.
    pub fn expected_status(&self) -> (r: u16)
        ensures
            r == self.expected(),
    {
        match self {
            Workload::CreateTask => CREATED,
            Workload::GetTask => OK,
        }
    }

    /// The name under which the workload is registered.
    pub fn name(&self) -> (r: &'static str)
        ensures
            r@ == self.label(),
    {
        match self {
            Workload::CreateTask => "Create Tasks",
            Workload::GetTask => "Get Tasks",
        }
    }

    /// The request of one iteration, addressed under `base`. `task_id` is
    /// the id captured at startup; only `GetTask` reads it.
    pub fn request(&self, base: &str, task_id: &str) -> (r: Request)
        ensures
            r@ == self.request_of(base@, task_id@),
    {
        match self {
            Workload::CreateTask => {
                let body = fixed_payload().to_json();
                post_json(tasks_url(base), body.as_str())
            },
            Workload::GetTask => get(task_url(base, task_id)),
        }
    }

    /// Counts one exchange. `status` is the status of the response, or `None`
    /// where the transport failed.
    pub fn classify(&self, status: Option<u16>) -> (r: RequestOutcome)
        ensures
            r == self.outcome_of(status),
            (r is Success) <==> status == Some(self.expected()),
    {
        match status {
            None => RequestOutcome::Failed(FailureReason::NoResponse),
            Some(code) => {
                if code == self.expected_status() {
                    RequestOutcome::Success
                } else {
                    RequestOutcome::Failed(FailureReason::UnexpectedStatus(code))
                }
            },
        }
    }
}

/// The workloads of the scenario, in the order in which they are registered.
pub fn workloads() -> (r: Vec<Workload>)
    ensures
        r@ == seq![Workload::CreateTask, Workload::GetTask],
{
    let mut all: Vec<Workload> = Vec::new();
    all.push(Workload::CreateTask);
    all.push(Workload::GetTask);
    all
}

/// The payload of every create that the scenario sends.
pub fn fixed_payload() -> (r: TaskRequest)
    ensures
        r@ == fixed_request(),
{
    TaskRequest { name: Some("foo".to_owned()), done: Some(false) }
}

/// The first step of the scenario: the create that is sent once, before any
/// workload runs.
///
/// Without an endpoint there is no request, so nothing can be sent.
pub fn startup_request(endpoint: Option<&str>) -> (r: Result<Request, StartupError>)
    ensures
        match endpoint {
            None => r == Err::<Request, StartupError>(StartupError::MissingEndpoint),
            Some(host) => r is Ok && r->Ok_0@ == post_of(
                tasks_address(api_address(host@)),
                request_text(fixed_request()),
            ),
        },
{
    match endpoint {
        None => Err(StartupError::MissingEndpoint),
        Some(host) => {
            let base = api_url(host);
            let body = fixed_payload().to_json();
            Ok(post_json(tasks_url(base.as_str()), body.as_str()))
        },
    }
}

/// What the startup create leaves the workloads with, given what its answer
/// was read as: the id of the task, or the reason why there is none.
pub open spec fn captured(read: Result<TaskView, DecodeError>) -> Result<Seq<char>, StartupError> {
    match read {
        Ok(task) => Ok(task.id),
        Err(e) => Err(StartupError::NoTask(e)),
    }
}

/// The id that the workloads fetch, taken from what the answer to the
/// startup create was read as.
pub fn task_id_of(read: Result<Task, DecodeError>) -> (r: Result<String, StartupError>)
    ensures
        match (r, read) {
            (Ok(id), Ok(task)) => id@ == task@.id,
            (Err(e), Err(cause)) => e == StartupError::NoTask(cause),
            _ => false,
        },
{
    match read {
        Ok(task) => Ok(task.id),
        Err(e) => Err(StartupError::NoTask(e)),
    }
}

/// The id that the workloads fetch, taken from the body that answered the
/// startup create.
pub fn captured_task_id(body: &str) -> (r: Result<String, StartupError>)
    ensures
        match r {
            Ok(id) => captured(task_read(parsed_json(body@))) == Ok::<Seq<char>, StartupError>(id@),
            Err(e) => captured(task_read(parsed_json(body@))) == Err::<Seq<char>, StartupError>(e),
        },
{
    task_id_of(Task::from_text(body))
}

} // verus!

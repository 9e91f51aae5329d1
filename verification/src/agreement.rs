//! The checks and the contract agree: a service that keeps the contract
//! passes every check.
//!
//! The statement is made over JSON documents, not over text. Each body is
//! taken as the document it stands for, which is what a parser that reads
//! back what was written hands to the checks and to the service.

use crate::checks::{
    created_echo, fetched, list_grew, rejected_with, Check, ExchangeView, StepView,
};
use crate::contract::{
    create_step, done_fault, extra_fault, faults, found, handle_step, has_extra, listed,
    name_fault, route_of, ReplyView, RouteView, ServiceState,
};
use crate::http::{get_of, task_address, tasks_address};
use crate::json::{lookup, JsonValue, MemberValue};
use crate::laws::{law_addresses_reach, law_created_task_is_found, lemma_found_is_stored};
use crate::numeral::decimal;
use crate::scenario::fixed_request;
use crate::task::{
    task_error_of, task_of, task_read, tasks_of, ErrorCode, TaskErrorView, TaskRequestView,
    TaskView,
};
use vstd::prelude::*;

verus! {

/// The document of an optional boolean: the boolean, or `null`.
pub open spec fn flag_document(flag: Option<bool>) -> JsonValue {
    match flag {
        Some(b) => JsonValue::Bool(b),
        None => JsonValue::Null,
    }
}

/// The document of an optional string: the string, or `null`.
pub open spec fn text_document(text: Option<Seq<char>>) -> JsonValue {
    match text {
        Some(s) => JsonValue::Text(s),
        None => JsonValue::Null,
    }
}

/// The document that the text of a create request stands for.
pub open spec fn request_document(request: TaskRequestView) -> JsonValue {
    JsonValue::Object(
        seq![
            MemberValue { key: "name"@, value: text_document(request.name) },
            MemberValue { key: "done"@, value: flag_document(request.done) },
        ],
    )
}

/// The document that the text of a task stands for.
pub open spec fn task_document(task: TaskView) -> JsonValue {
    JsonValue::Object(
        seq![
            MemberValue { key: "id"@, value: JsonValue::Text(task.id) },
            MemberValue { key: "name"@, value: JsonValue::Text(task.name) },
            MemberValue { key: "done"@, value: flag_document(task.done) },
        ],
    )
}

/// The document that the text of a list of tasks stands for.
pub open spec fn tasks_document(tasks: Seq<TaskView>) -> JsonValue {
    JsonValue::Array(Seq::new(tasks.len(), |i: int| task_document(tasks[i])))
}

/// The document that the text of a rejection stands for.
pub open spec fn task_error_document(error: TaskErrorView) -> JsonValue {
    JsonValue::Object(
        seq![
            MemberValue { key: "requestId"@, value: JsonValue::Text(error.request_id) },
            MemberValue {
                key: "errorCodes"@,
                value: JsonValue::Array(
                    Seq::new(error.error_codes.len(), |i: int| JsonValue::Text(error.error_codes[i])),
                ),
            },
            MemberValue { key: "errorType"@, value: JsonValue::Text(error.error_type) },
        ],
    )
}

/// The document that the body of an answer stands for; an empty body stands
/// for none.
pub open spec fn reply_document(reply: ReplyView) -> Option<JsonValue> {
    match reply {
        ReplyView::Created(task) => Some(task_document(task)),
        ReplyView::Found(task) => Some(task_document(task)),
        ReplyView::Listing(tasks) => Some(tasks_document(tasks)),
        ReplyView::Rejected(error) => Some(task_error_document(error)),
        ReplyView::NotFound => None,
    }
}

/// An answer as a check sees it when the body is read back as the document
/// it stands for.
pub open spec fn exchange_of(reply: ReplyView) -> ExchangeView {
    ExchangeView { status: reply.status(), body: reply.body(), json: reply_document(reply) }
}

/// The document that the body which `check` posts stands for; the malformed
/// body stands for none.
pub open spec fn posted_document(check: Check) -> Option<JsonValue> {
    match check {
        Check::CreateSucceeds => Some(request_document(fixed_request())),
        Check::ListReflectsCreation => Some(request_document(fixed_request())),
        Check::FetchById => Some(request_document(fixed_request())),
        Check::MissingName => Some(
            request_document(TaskRequestView { name: None, done: Some(false) }),
        ),
        Check::MissingDone => Some(
            request_document(TaskRequestView { name: Some("foo"@), done: None }),
        ),
        Check::WrongTypeName => Some(
            JsonValue::Object(
                seq![
                    MemberValue { key: "name"@, value: JsonValue::Number("123"@) },
                    MemberValue { key: "done"@, value: JsonValue::Bool(false) },
                ],
            ),
        ),
        Check::WrongTypeDone => Some(
            JsonValue::Object(
                seq![
                    MemberValue { key: "name"@, value: JsonValue::Text("foo"@) },
                    MemberValue { key: "done"@, value: JsonValue::Number("123"@) },
                ],
            ),
        ),
        Check::MalformedJson => None,
        Check::UnknownExtraField => Some(
            JsonValue::Object(
                seq![
                    MemberValue { key: "name"@, value: JsonValue::Text("foo"@) },
                    MemberValue { key: "done"@, value: JsonValue::Bool(true) },
                    MemberValue { key: "extra"@, value: JsonValue::Text("foo"@) },
                ],
            ),
        ),
        Check::FetchUnknownId => None,
        Check::FetchUnknownRoute => None,
    }
}

/// Where `check` ends when it is driven against the contract for at most
/// `rounds` exchanges, starting in `state` with `seen` behind it: each
/// request that the check asks for is answered as the contract says, and the
/// answer goes back to the check.
pub open spec fn run(check: Check, state: ServiceState, seen: Seq<ExchangeView>, rounds: nat) -> StepView
    decreases rounds,
{
    match check.step_of(state.base, seen) {
        StepView::Send(request) => if rounds == 0 {
            StepView::Send(request)
        } else {
            let (next, reply) = handle_step(state, request, posted_document(check));
            run(check, next, seen.push(exchange_of(reply)), (rounds - 1) as nat)
        },
        StepView::Passed => StepView::Passed,
        StepView::Failed => StepView::Failed,
    }
}

/// The names of the members are all different.
proof fn lemma_member_names()
    ensures
        "id"@ != "name"@,
        "id"@ != "done"@,
        "name"@ != "done"@,
        "extra"@ != "name"@,
        "extra"@ != "done"@,
        "requestId"@ != "errorCodes"@,
        "requestId"@ != "errorType"@,
        "errorCodes"@ != "errorType"@,
{
    reveal_strlit("id");
    reveal_strlit("name");
    reveal_strlit("done");
    reveal_strlit("extra");
    reveal_strlit("requestId");
    reveal_strlit("errorCodes");
    reveal_strlit("errorType");
    assert("name"@[0] != "done"@[0]);
    assert("requestId"@[0] != "errorType"@[0]);
    assert("errorCodes"@.len() != "errorType"@.len());
}

/// The members of an object of two or three members, looked up by name.
proof fn lemma_lookup(members: Seq<MemberValue>)
    requires
        2 <= members.len() <= 3,
        members[0].key != members[1].key,
        members.len() == 3 ==> members[2].key != members[0].key && members[2].key
            != members[1].key,
    ensures
        lookup(members, members[0].key) == Some(members[0].value),
        lookup(members, members[1].key) == Some(members[1].value),
        members.len() == 3 ==> lookup(members, members[2].key) == Some(members[2].value),
        forall|key: Seq<char>|
            (forall|i: int| 0 <= i < members.len() ==> (#[trigger] members[i]).key != key)
                ==> lookup(members, key) is None,
{
    let rest = members.skip(1);
    let last = rest.skip(1);
    assert(rest[0] == members[1]);
    assert(lookup(rest, members[1].key) == Some(members[1].value));
    if members.len() == 3 {
        assert(last[0] == members[2]);
        assert(last.skip(1).len() == 0);
        assert(lookup(last, members[2].key) == Some(members[2].value));
        assert(lookup(rest, members[2].key) == Some(members[2].value));
    } else {
        assert(last.len() == 0);
    }
    assert forall|key: Seq<char>|
        (forall|i: int| 0 <= i < members.len() ==> (#[trigger] members[i]).key != key) implies lookup(
        members,
        key,
    ) is None by {
        assert(members[0].key != key);
        assert(members[1].key != key);
        assert(lookup(rest, key) == lookup(last, key));
        if members.len() == 3 {
            assert(members[2].key != key);
            assert(lookup(last, key) == lookup(last.skip(1), key));
        }
    }
}

/// A task reads back from its document.
pub proof fn lemma_task_reads_back(task: TaskView)
    ensures
        task_of(task_document(task)) == Some(task),
        task_read(Some(task_document(task))) == Ok::<TaskView, crate::task::DecodeError>(task),
{
    lemma_member_names();
    lemma_lookup(task_document(task)->Object_0);
}

/// A list of tasks reads back from its document.
pub proof fn lemma_tasks_read_back(tasks: Seq<TaskView>)
    ensures
        tasks_of(tasks_document(tasks)) == Some(tasks),
{
    let items = tasks_document(tasks)->Array_0;
    assert forall|i: int| 0 <= i < items.len() implies (#[trigger] task_of(items[i])) == Some(
        tasks[i],
    ) by {
        lemma_task_reads_back(tasks[i]);
    }
    assert(Seq::new(items.len(), |i: int| task_of(items[i])->0) =~= tasks);
}

/// A rejection reads back from its document.
pub proof fn lemma_task_error_reads_back(error: TaskErrorView)
    ensures
        task_error_of(task_error_document(error)) == Some(error),
{
    lemma_member_names();
    let members = task_error_document(error)->Object_0;
    lemma_lookup(members);
    let items = members[1].value->Array_0;
    assert(Seq::new(items.len(), |i: int| items[i]->Text_0) =~= error.error_codes);
}

/// What the contract finds wrong with the body that each check posts: the
/// one code that the check expects, and nothing for the fixed payload.
proof fn lemma_posted_faults(check: Check)
    ensures
        match check.expected_code() {
            Some(code) => faults(posted_document(check)) == seq![code],
            None => check.posted() is Some ==> faults(posted_document(check)).len() == 0,
        },
        check.expected_code() is None && check.posted() is Some ==> {
            &&& posted_document(check) matches Some(value)
            &&& value.member("name"@) == Some(JsonValue::Text("foo"@))
            &&& value.member("done"@) == Some(JsonValue::Bool(false))
        },
{
    lemma_member_names();
    match posted_document(check) {
        Some(value) => {
            let members = value->Object_0;
            lemma_lookup(members);
            if members.len() == 3 {
                assert(members[2].key != "name"@ && members[2].key != "done"@);
                assert(has_extra(members));
            } else {
                assert(!has_extra(members));
            }
            let all = listed(name_fault(value)) + listed(done_fault(value)) + listed(
                extra_fault(value),
            );
            assert(faults(Some(value)) == all);
            match check.expected_code() {
                Some(code) => {
                    assert(all =~= seq![code]);
                },
                None => {
                    assert(all =~= Seq::<ErrorCode>::empty());
                },
            }
        },
        None => {},
    }
}

/// A numeral holds digits only.
proof fn lemma_decimal_digits(n: nat, i: int)
    requires
        0 <= i < decimal(n).len(),
    ensures
        '0' <= decimal(n)[i] <= '9',
    decreases n,
{
    if n >= 10 {
        if i < decimal(n / 10).len() {
            lemma_decimal_digits(n / 10, i);
        }
    }
}

/// No task is stored under the id `foo`.
proof fn lemma_foo_is_unknown(state: ServiceState)
    requires
        state.wf(),
    ensures
        found(state.tasks, "foo"@) is None,
{
    reveal_strlit("foo");
    lemma_found_is_stored(state.tasks, "foo"@);
    if found(state.tasks, "foo"@) is Some {
        let task = found(state.tasks, "foo"@)->0;
        let k = choose|k: int| 0 <= k < state.tasks.len() && state.tasks[k] == task;
        lemma_decimal_digits((k + 1) as nat, 0);
        assert("foo"@[0] == 'f');
    }
}

/// A service that keeps the contract passes every check: driven against the
/// contract from any well-formed state, each check reaches its verdict
/// within three exchanges, and the verdict is that the service passed.
pub proof fn law_checks_accept_the_contract(check: Check, state: ServiceState)
    requires
        state.wf(),
    ensures
        run(check, state, Seq::empty(), 3) == StepView::Passed,
{
    reveal_with_fuel(run, 4);
    let base = state.base;
    let none = Seq::<ExchangeView>::empty();
    let parsed = posted_document(check);
    lemma_posted_faults(check);
    match check {
        Check::FetchUnknownId => {
            lemma_foo_is_unknown(state);
            law_addresses_reach(state, "foo"@, Seq::empty(), parsed);
            let reply = handle_step(state, get_of(task_address(base, "foo"@)), parsed).1;
            assert(reply == ReplyView::NotFound);
            assert(none.push(exchange_of(reply))[0] == exchange_of(reply));
        },
        Check::FetchUnknownRoute => {
            reveal_strlit("/foo");
            reveal_strlit("/tasks");
            reveal_strlit("/");
            let url = base + "/foo"@;
            assert(url.len() == base.len() + 4);
            assert(tasks_address(base).len() == base.len() + 6);
            assert((tasks_address(base) + "/"@).len() == base.len() + 7);
            assert(route_of(base, url) == RouteView::Unknown);
            let reply = handle_step(state, get_of(url), parsed).1;
            assert(reply == ReplyView::NotFound);
            assert(none.push(exchange_of(reply))[0] == exchange_of(reply));
        },
        Check::CreateSucceeds => {
            let request = check.create_of(base);
            law_addresses_reach(state, Seq::empty(), request.body, parsed);
            let reply = create_step(state, parsed).1;
            let task = reply->Created_0;
            lemma_task_reads_back(task);
            assert(none.push(exchange_of(reply))[0] == exchange_of(reply));
            assert(created_echo(exchange_of(reply), fixed_request()) == Some(task));
        },
        Check::ListReflectsCreation => {
            let request = check.create_of(base);
            law_addresses_reach(state, Seq::empty(), request.body, parsed);
            let (after, reply) = create_step(state, parsed);
            law_addresses_reach(after, Seq::empty(), request.body, parsed);
            let task = reply->Created_0;
            lemma_task_reads_back(task);
            lemma_tasks_read_back(state.tasks);
            lemma_tasks_read_back(after.tasks);
            let first = exchange_of(ReplyView::Listing(state.tasks));
            let second = exchange_of(reply);
            let third = exchange_of(ReplyView::Listing(after.tasks));
            let seen = none.push(first).push(second).push(third);
            assert(none.push(first).len() == 1);
            assert(none.push(first).push(second).len() == 2);
            assert(seen[0] == first && seen[1] == second && seen[2] == third);
            assert(created_echo(second, fixed_request()) == Some(task));
            assert(after.tasks.last() == task);
            assert(list_grew(first, second, third, fixed_request()));
        },
        Check::FetchById => {
            let request = check.create_of(base);
            law_addresses_reach(state, Seq::empty(), request.body, parsed);
            let (after, reply) = create_step(state, parsed);
            let task = reply->Created_0;
            lemma_task_reads_back(task);
            law_created_task_is_found(state, parsed, parsed);
            let first = exchange_of(reply);
            let second = exchange_of(ReplyView::Found(task));
            let seen = none.push(first).push(second);
            assert(none.push(first)[0] == first);
            assert(none.push(first).len() == 1);
            assert(seen[0] == first && seen[1] == second);
            assert(created_echo(first, fixed_request()) == Some(task));
            assert(fetched(second, task));
        },
        _ => {
            let request = check.create_of(base);
            law_addresses_reach(state, Seq::empty(), request.body, parsed);
            let reply = create_step(state, parsed).1;
            let code = check.expected_code()->0;
            let error = reply->Rejected_0;
            lemma_task_error_reads_back(error);
            assert(error.error_codes =~= seq![code.text()]);
            assert(none.push(exchange_of(reply))[0] == exchange_of(reply));
            assert(rejected_with(exchange_of(reply), code));
        },
    }
}

} // verus!

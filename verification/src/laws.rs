//! What holds of every service that keeps the contract, proved from the
//! contract as it is written down.

use crate::contract::{
    code_texts, create_step, done_fault, extra_fault, faults, fetch_step, found, handle_step,
    has_extra, holds_flag, holds_text, lacks, listed, name_fault, new_task, route_of, ReplyView,
    RouteView, ServiceState,
};
use crate::http::{get_of, post_of, task_address, tasks_address, Method, RequestView};
use crate::json::JsonValue;
use crate::numeral::{lemma_decimal_injective, lemma_decimal_len};
use crate::task::{ErrorCode, TaskView};
use vstd::prelude::*;

verus! {

/// A search that finds something finds a stored task with the wanted id.
pub proof fn lemma_found_is_stored(tasks: Seq<TaskView>, id: Seq<char>)
    ensures
        match found(tasks, id) {
            Some(task) => task.id == id && tasks.contains(task),
            None => forall|i: int| 0 <= i < tasks.len() ==> (#[trigger] tasks[i]).id != id,
        },
    decreases tasks.len(),
{
    if tasks.len() > 0 && tasks[0].id != id {
        let rest = tasks.skip(1);
        lemma_found_is_stored(rest, id);
        match found(rest, id) {
            Some(task) => {
                let k = choose|k: int| 0 <= k < rest.len() && rest[k] == task;
                assert(tasks[k + 1] == task);
            },
            None => {
                assert forall|i: int| 0 <= i < tasks.len() implies (#[trigger] tasks[i]).id
                    != id by {
                    if i > 0 {
                        assert(rest[i - 1] == tasks[i]);
                    }
                }
            },
        }
    } else if tasks.len() > 0 {
        assert(tasks.contains(tasks[0]));
    }
}

/// A search over a store to which one task was added: what was found before
/// is still found, and the added task is found only where nothing was.
pub proof fn lemma_found_after_push(tasks: Seq<TaskView>, added: TaskView, id: Seq<char>)
    ensures
        found(tasks.push(added), id) == match found(tasks, id) {
            Some(task) => Some(task),
            None => if added.id == id {
                Some(added)
            } else {
                None
            },
        },
    decreases tasks.len(),
{
    let longer = tasks.push(added);
    if tasks.len() == 0 {
        assert(longer[0] == added);
        assert(longer.skip(1) =~= Seq::<TaskView>::empty());
        assert(found(longer.skip(1), id) is None);
    } else {
        assert(longer[0] == tasks[0]);
        assert(longer.skip(1) =~= tasks.skip(1).push(added));
        lemma_found_after_push(tasks.skip(1), added, id);
    }
}

/// In a well-formed store the task at position `i` is the one that a search
/// for its id finds.
pub proof fn lemma_found_at(state: ServiceState, i: int)
    requires
        state.wf(),
        0 <= i < state.tasks.len(),
    ensures
        found(state.tasks, state.tasks[i].id) == Some(state.tasks[i]),
{
    let id = state.tasks[i].id;
    lemma_found_is_stored(state.tasks, id);
    match found(state.tasks, id) {
        Some(task) => {
            let k = choose|k: int| 0 <= k < state.tasks.len() && state.tasks[k] == task;
            lemma_decimal_injective((k + 1) as nat, (i + 1) as nat);
        },
        None => {},
    }
}

/// The addresses that a client builds reach what they name: a `POST` to the
/// collection's address is a create, a `GET` of it lists the tasks, and a
/// `GET` of a task's address fetches the task of that id.
pub proof fn law_addresses_reach(
    state: ServiceState,
    id: Seq<char>,
    body: Seq<char>,
    parsed: Option<JsonValue>,
)
    ensures
        route_of(state.base, tasks_address(state.base)) == RouteView::Collection,
        route_of(state.base, task_address(state.base, id)) == RouteView::Item(id),
        handle_step(state, post_of(tasks_address(state.base), body), parsed) == create_step(
            state,
            parsed,
        ),
        handle_step(state, get_of(tasks_address(state.base)), parsed) == (
            state,
            ReplyView::Listing(state.tasks),
        ),
        handle_step(state, get_of(task_address(state.base, id)), parsed) == (
            state,
            fetch_step(state, id),
        ),
{
    reveal_strlit("/tasks");
    reveal_strlit("/tasks/");
    reveal_strlit("/");
    let collection = tasks_address(state.base);
    let prefix = collection + "/"@;
    let url = task_address(state.base, id);
    assert(prefix =~= state.base + "/tasks/"@);
    assert(url.len() == prefix.len() + id.len());
    assert(url.subrange(0, prefix.len() as int) =~= prefix);
    assert(url.subrange(prefix.len() as int, url.len() as int) =~= id);
    assert(url != collection) by {
        assert(url.len() > collection.len());
    }
}

/// Ids are never empty, and no two stored tasks share one.
pub proof fn law_ids_distinct(state: ServiceState, i: int, j: int)
    requires
        state.wf(),
        0 <= i < state.tasks.len(),
        0 <= j < state.tasks.len(),
        i != j,
    ensures
        state.tasks[i].id.len() > 0,
        state.tasks[i].id != state.tasks[j].id,
{
    lemma_decimal_len((i + 1) as nat);
    if state.tasks[i].id == state.tasks[j].id {
        lemma_decimal_injective((i + 1) as nat, (j + 1) as nat);
    }
}

/// Whatever request the service answers, every stored task keeps the id it
/// was given, and the service keeps its address.
pub proof fn law_requests_keep_ids(
    state: ServiceState,
    request: RequestView,
    parsed: Option<JsonValue>,
)
    requires
        state.wf(),
    ensures
        handle_step(state, request, parsed).0.wf(),
        handle_step(state, request, parsed).0.base == state.base,
        create_step(state, parsed).0.wf(),
        create_step(state, parsed).0.base == state.base,
{
}

/// A create whose body is an object with a string `name`, a boolean `done`
/// and no further member is answered with status 201 and with a task that
/// carries that name and that flag; the task is stored under a fresh id.
pub proof fn law_valid_create_echoes(
    state: ServiceState,
    value: JsonValue,
    name: Seq<char>,
    done: bool,
)
    requires
        value is Object,
        value.member("name"@) == Some(JsonValue::Text(name)),
        value.member("done"@) == Some(JsonValue::Bool(done)),
        !has_extra(value->Object_0),
    ensures
        create_step(state, Some(value)).1 == ReplyView::Created(
            TaskView { id: state.next_id(), name, done: Some(done) },
        ),
        create_step(state, Some(value)).1.status() == 201,
        create_step(state, Some(value)).0.tasks == state.tasks.push(
            TaskView { id: state.next_id(), name, done: Some(done) },
        ),
{
    assert(faults(Some(value)) =~= Seq::<ErrorCode>::empty());
}

/// A create is answered with a task exactly when its body has no fault, and
/// with the faults otherwise.
pub proof fn law_create_answers(state: ServiceState, parsed: Option<JsonValue>)
    ensures
        faults(parsed).len() == 0 <==> create_step(state, parsed).1 is Created,
        faults(parsed).len() > 0 <==> create_step(state, parsed).1 is Rejected,
        create_step(state, parsed).1 matches ReplyView::Rejected(error) ==> {
            &&& error.error_codes == code_texts(faults(parsed))
            &&& error.error_codes.len() > 0
            &&& 400 <= create_step(state, parsed).1.status() <= 499
        },
{
}

/// Reading changes nothing: after a `GET`, whatever it asked for, the service
/// is in the state it was in, so the same `GET` is answered in the same way
/// again.
pub proof fn law_reads_change_nothing(
    state: ServiceState,
    request: RequestView,
    parsed: Option<JsonValue>,
    parsed_again: Option<JsonValue>,
)
    requires
        request.method == Method::Get,
    ensures
        handle_step(state, request, parsed).0 == state,
        handle_step(handle_step(state, request, parsed).0, request, parsed_again).1 == handle_step(
            state,
            request,
            parsed,
        ).1,
{
}

/// No create touches what is stored: a task that a fetch finds is found
/// again, field for field and so letter for letter, after any create.
pub proof fn law_fetch_is_stable(state: ServiceState, id: Seq<char>, parsed: Option<JsonValue>)
    requires
        fetch_step(state, id) is Found,
    ensures
        fetch_step(create_step(state, parsed).0, id) == fetch_step(state, id),
        fetch_step(create_step(state, parsed).0, id).body() == fetch_step(state, id).body(),
{
    if faults(parsed).len() == 0 {
        lemma_found_after_push(state.tasks, new_task(state, parsed->0), id);
    }
}

/// One create lengthens the list by exactly one task, the created one, which
/// stands last; a create that is turned down leaves the list as it was. So
/// the list never gets shorter.
pub proof fn law_create_grows_list(state: ServiceState, parsed: Option<JsonValue>)
    ensures
        match create_step(state, parsed).1 {
            ReplyView::Created(task) => {
                &&& create_step(state, parsed).0.tasks.len() == state.tasks.len() + 1
                &&& create_step(state, parsed).0.tasks.last() == task
                &&& create_step(state, parsed).0.tasks.drop_last() == state.tasks
            },
            _ => create_step(state, parsed).0.tasks == state.tasks,
        },
        create_step(state, parsed).0.tasks.len() >= state.tasks.len(),
{
    if faults(parsed).len() == 0 {
        let task = new_task(state, parsed->0);
        assert(state.tasks.push(task).drop_last() =~= state.tasks);
    }
}

/// A body that the parser rejects, and one that is a document but no object,
/// is answered with `json_invalid` alone.
pub proof fn law_malformed_body_code(parsed: Option<JsonValue>)
    requires
        parsed matches Some(value) ==> !(value is Object),
    ensures
        faults(parsed) == seq![ErrorCode::JsonInvalid],
{
}

/// The code for each single fault of an object sent to create a task: where
/// `name` or `done` is missing, or `null`; where `name` is no string or
/// `done` no boolean; and where a further member occurs. In each case the
/// one code is the whole list.
pub proof fn law_single_fault_codes(value: JsonValue)
    requires
        value is Object,
    ensures
        lacks(value, "name"@) && holds_flag(value, "done"@) && !has_extra(value->Object_0)
            ==> faults(Some(value)) == seq![ErrorCode::NameRequired],
        holds_text(value, "name"@) && lacks(value, "done"@) && !has_extra(value->Object_0)
            ==> faults(Some(value)) == seq![ErrorCode::DoneRequired],
        !lacks(value, "name"@) && !holds_text(value, "name"@) && holds_flag(value, "done"@)
            && !has_extra(value->Object_0) ==> faults(Some(value)) == seq![ErrorCode::NameInvalid],
        holds_text(value, "name"@) && !lacks(value, "done"@) && !holds_flag(value, "done"@)
            && !has_extra(value->Object_0) ==> faults(Some(value)) == seq![ErrorCode::DoneInvalid],
        holds_text(value, "name"@) && holds_flag(value, "done"@) && has_extra(value->Object_0)
            ==> faults(Some(value)) == seq![ErrorCode::ExtraInvalid],
{
    let all = listed(name_fault(value)) + listed(done_fault(value)) + listed(extra_fault(value));
    assert(faults(Some(value)) == all);
    if name_fault(value) is None && done_fault(value) is None {
        assert(all =~= listed(extra_fault(value)));
    }
    if name_fault(value) is None && extra_fault(value) is None {
        assert(all =~= listed(done_fault(value)));
    }
    if done_fault(value) is None && extra_fault(value) is None {
        assert(all =~= listed(name_fault(value)));
    }
}

/// A `GET` that names neither the collection nor a stored task is answered
/// with status 404 and an empty body, and leaves the service as it was.
pub proof fn law_unknown_get_is_not_found(
    state: ServiceState,
    request: RequestView,
    parsed: Option<JsonValue>,
)
    requires
        request.method == Method::Get,
        match route_of(state.base, request.url) {
            RouteView::Collection => false,
            RouteView::Item(id) => found(state.tasks, id) is None,
            RouteView::Unknown => true,
        },
    ensures
        handle_step(state, request, parsed).1 == ReplyView::NotFound,
        handle_step(state, request, parsed).1.status() == 404,
        handle_step(state, request, parsed).1.body().len() == 0,
        handle_step(state, request, parsed).0 == state,
{
}

/// A task that was just created is what a fetch of its id returns, with
/// status 200 and the very text that the create was answered with; and a
/// `GET` of the task's address is such a fetch.
pub proof fn law_created_task_is_found(
    state: ServiceState,
    parsed: Option<JsonValue>,
    parsed_later: Option<JsonValue>,
)
    requires
        state.wf(),
        create_step(state, parsed).1 is Created,
    ensures
        ({
            let (after, reply) = create_step(state, parsed);
            let task = reply->Created_0;
            let fetch = get_of(task_address(state.base, task.id));
            &&& task.id.len() > 0
            &&& fetch_step(after, task.id) == ReplyView::Found(task)
            &&& fetch_step(after, task.id).status() == 200
            &&& fetch_step(after, task.id).body() == reply.body()
            &&& handle_step(after, fetch, parsed_later).1 == ReplyView::Found(task)
        }),
{
    let (after, reply) = create_step(state, parsed);
    let task = reply->Created_0;
    assert(after.tasks.last() == task);
    assert(after.wf());
    lemma_found_at(after, after.tasks.len() - 1);
    lemma_decimal_len(after.tasks.len());
    law_addresses_reach(after, task.id, Seq::empty(), parsed_later);
}

} // verus!

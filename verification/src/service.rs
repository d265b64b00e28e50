//! A request from beginning to end: the handler and storage taking turns.

use vstd::prelude::*;
use crate::flow::{
    AddingView, EditingView, Guarded, HoldingView, ProgressView, Purge, Single, StepView,
};
use crate::orchestrator;
use crate::response::ReplyView;
use crate::schema::{DateRangeView, TodoEditView, UserFieldsView, UserPatchView};
use crate::storage::Storage;

verus! {

/// Carries out `step` against `storage` and goes on as `plan` says: each
/// command goes to storage, and its answer goes back to the plan, until the
/// plan is done or `turns` commands have run. Gives storage as the request
/// leaves it, and the reply, or `None` if the plan wanted more than `turns`
/// commands.
pub open spec fn run<S>(
    plan: spec_fn(ProgressView<S>) -> StepView<S>,
    storage: Storage,
    step: StepView<S>,
    turns: nat,
) -> (Storage, Option<ReplyView>)
    decreases turns,
{
    match step {
        StepView::Done(reply) => (storage.settle(), Some(reply)),
        StepView::Run(command, state) => if turns == 0 {
            (storage.settle(), None)
        } else {
            let (next, event) = storage.answer(command);
            run(plan, next, plan(ProgressView::Resumed(state, event)), (turns - 1) as nat)
        },
    }
}

/// A whole request: `plan` from its start, with at most `turns` commands.
pub open spec fn serve<S>(
    plan: spec_fn(ProgressView<S>) -> StepView<S>,
    storage: Storage,
    turns: nat,
) -> (Storage, Option<ReplyView>) {
    run(plan, storage, plan(ProgressView::Start), turns)
}

/// The request "create user".
pub open spec fn create_user(storage: Storage, user: UserFieldsView) -> (Storage, Option<ReplyView>) {
    serve(
        |at: ProgressView<Single>| orchestrator::create_user(user, at),
        storage,
        1,
    )
}

/// The request "add todos to user".
pub open spec fn add_todos(storage: Storage, user_id: int, todos: Seq<Seq<char>>) -> (
    Storage,
    Option<ReplyView>,
) {
    serve(
        |at: ProgressView<AddingView>| orchestrator::add_todos(user_id, todos, at),
        storage,
        todos.len() + 1,
    )
}

/// The request "get user with todos".
pub open spec fn user_with_todos(storage: Storage, id: int) -> (Storage, Option<ReplyView>) {
    serve(
        |at: ProgressView<HoldingView>| orchestrator::user_with_todos(id, at),
        storage,
        2,
    )
}

/// The request "list users".
pub open spec fn list_users(storage: Storage) -> (Storage, Option<ReplyView>) {
    serve(|at: ProgressView<Single>| orchestrator::list_users(at), storage,
        1)
}

/// The request "get todos by date range".
pub open spec fn todos_by_date(storage: Storage, user_id: int, range: DateRangeView) -> (
    Storage,
    Option<ReplyView>,
) {
    serve(
        |at: ProgressView<Guarded>| orchestrator::todos_by_date(user_id, range, at),
        storage,
        2,
    )
}

/// The request "delete user with todos".
pub open spec fn delete_user(storage: Storage, id: int) -> (Storage, Option<ReplyView>) {
    serve(
        |at: ProgressView<Purge>| orchestrator::delete_user(id, at),
        storage,
        4,
    )
}

/// The request "delete todo for user".
pub open spec fn delete_todo(storage: Storage, user_id: int, todoid: int) -> (
    Storage,
    Option<ReplyView>,
) {
    serve(
        |at: ProgressView<Guarded>| orchestrator::delete_todo(user_id, todoid, at),
        storage,
        2,
    )
}

/// The request "update user".
pub open spec fn update_user(storage: Storage, id: int, patch: UserPatchView) -> (
    Storage,
    Option<ReplyView>,
) {
    serve(
        |at: ProgressView<HoldingView>| orchestrator::update_user(id, patch, at),
        storage,
        2,
    )
}

/// The request "update todos for user".
pub open spec fn update_todos(storage: Storage, user_id: int, edits: Seq<TodoEditView>) -> (
    Storage,
    Option<ReplyView>,
) {
    serve(
        |at: ProgressView<EditingView>| orchestrator::update_todos(user_id, edits, at),
        storage,
        edits.len() + 1,
    )
}

} // verus!

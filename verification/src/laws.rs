//! What holds of whole requests, against storage as [`crate::storage`]
//! describes it.

use vstd::prelude::*;
use crate::flow::{
    AddingView, EditingView, Guarded, HoldingView, ProgressView, Purge, Single, StepView,
};
use crate::model::TodoView;
use crate::orchestrator;
use crate::repository::CommandView;
use crate::response::{
    Failure, PayloadView, ReplyView, Status, BAD_REQUEST, INTERNAL_SERVER_ERROR, NOT_FOUND, OK,
};
use crate::schema::{DateRangeView, TodoEditView, UserFieldsView, UserPatchView};
use crate::service;
use crate::service::run;
use crate::storage::{lemma_split_by_owner, Storage};
use crate::text::{todo_missing_text, todo_not_found_text};

verus! {

/// A patch without any field is refused, whatever the id and whatever is
/// stored, and storage stays as it is.
pub proof fn empty_patch_is_refused(storage: Storage, id: int, patch: UserPatchView)
    requires
        storage.at_rest(),
        patch.is_empty(),
    ensures
        service::update_user(storage, id, patch).0 == storage,
        service::update_user(storage, id, patch).1 matches Some(reply)
            && reply.failure() == Some(Failure::InvalidInput),
{
}

/// Adding todos to a user that is not there is refused with `NotFound`, and
/// storage stays as it is: no todo is created.
pub proof fn todos_need_their_user(storage: Storage, user_id: int, todos: Seq<Seq<char>>)
    requires
        storage.at_rest(),
        !storage.tables.has_user(user_id),
    ensures
        service::add_todos(storage, user_id, todos) == (storage, Some(orchestrator::user_not_found())),
        orchestrator::user_not_found().failure() == Some(Failure::NotFound),
{
    reveal_with_fuel(run, 2);
}

/// A user that was created is fetched by the id that the creation
/// reported: with exactly the fields that were sent, under an id that no user
/// had before.
pub proof fn created_user_is_fetched(storage: Storage, user: UserFieldsView)
    requires
        storage.at_rest(),
    ensures
        ({
            let id = storage.tables.next_user;
            let (stored, reply) = service::create_user(storage, user);
            &&& !storage.tables.has_user(id)
            &&& reply == Some(
                ReplyView::success(Some("User created successfully"@), PayloadView::UserId(id)),
            )
            &&& stored == storage.with(storage.tables.insert_user(user))
            &&& stored.at_rest()
            &&& service::user_with_todos(stored, id) == (
                stored,
                Some(
                    ReplyView::success(
                        None,
                        PayloadView::UserWithTodos {
                            user: user.with_id(id),
                            todos: stored.tables.todos_of(id),
                        },
                    ),
                ),
            )
        }),
{
    reveal_with_fuel(run, 3);
    storage.tables.lemma_insert_user(user);
}

/// A patch writes the fields that it names over the stored ones and leaves
/// the others, the id, every other user and every todo as they were; a
/// fetch after the update shows the merged user.
pub proof fn patch_changes_named_fields_only(storage: Storage, id: int, patch: UserPatchView)
    requires
        storage.at_rest(),
        !patch.is_empty(),
        storage.tables.has_user(id),
    ensures
        ({
            let before = storage.tables.find_user(id)->Some_0;
            let merged = patch.apply(before);
            let (stored, reply) = service::update_user(storage, id, patch);
            &&& merged.id == id
            &&& merged.fname == if let Some(fname) = patch.fname { fname } else { before.fname }
            &&& merged.lname == if let Some(lname) = patch.lname { lname } else { before.lname }
            &&& merged.username == if let Some(username) = patch.username {
                username
            } else {
                before.username
            }
            &&& merged.userpassword == if let Some(userpassword) = patch.userpassword {
                userpassword
            } else {
                before.userpassword
            }
            &&& reply == Some(
                ReplyView::success(Some("User updated successfully"@), PayloadView::User(merged)),
            )
            &&& stored.at_rest()
            &&& stored.tables.find_user(id) == Some(merged)
            &&& forall|other: int|
                other != id ==> #[trigger] stored.tables.find_user(other)
                    == storage.tables.find_user(other)
            &&& stored.tables.todos == storage.tables.todos
            &&& service::user_with_todos(stored, id).1 == Some(
                ReplyView::success(
                    None,
                    PayloadView::UserWithTodos { user: merged, todos: stored.tables.todos_of(id) },
                ),
            )
        }),
{
    reveal_with_fuel(run, 3);
    let place = storage.tables.user_index(id);
    assert(storage.tables.user_at(id, place));
    let merged = patch.apply(storage.tables.users[place]);
    assert(UserFieldsView::of(merged).with_id(id) == merged);
    storage.tables.lemma_update_user(id, UserFieldsView::of(merged));
}

/// The update of a user that is not there is refused with `NotFound`, and
/// storage stays as it is.
pub proof fn update_needs_its_user(storage: Storage, id: int, patch: UserPatchView)
    requires
        storage.at_rest(),
        !patch.is_empty(),
        !storage.tables.has_user(id),
    ensures
        service::update_user(storage, id, patch) == (storage, Some(orchestrator::user_not_found())),
{
    reveal_with_fuel(run, 3);
}

/// Deleting a user that is there removes that user's row and every todo of
/// that user, and nothing else: the other users and their todos stay. A
/// fetch of the user afterwards finds nothing.
pub proof fn delete_removes_user_and_todos(storage: Storage, id: int)
    requires
        storage.at_rest(),
        storage.tables.has_user(id),
    ensures
        ({
            let (stored, reply) = service::delete_user(storage, id);
            &&& reply == Some(
                ReplyView::success(Some("User and todos deleted"@), PayloadView::Nothing),
            )
            &&& stored.at_rest()
            &&& !stored.tables.has_user(id)
            &&& stored.tables.users.len() == storage.tables.users.len() - 1
            &&& forall|other: int|
                other != id ==> #[trigger] stored.tables.find_user(other)
                    == storage.tables.find_user(other)
            &&& stored.tables.todos == storage.tables.todos_of_others(id)
            &&& stored.tables.todos_of(id) == Seq::<TodoView>::empty()
            &&& stored.tables.todos.len() == storage.tables.todos.len()
                - storage.tables.todos_of(id).len()
            &&& service::user_with_todos(stored, id) == (
                stored,
                Some(orchestrator::user_not_found()),
            )
        }),
{
    reveal_with_fuel(run, 5);
    let emptied = storage.tables.delete_todos_of(id);
    storage.tables.lemma_delete_todos_of(id);
    let place = storage.tables.user_index(id);
    assert(storage.tables.user_at(id, place));
    assert(emptied.user_at(id, place));
    emptied.lemma_delete_user(id);
    lemma_split_by_owner(storage.tables.todos, id);
}

/// Deleting a user that is not there is refused with `NotFound`, and
/// storage stays as it is: the todos that the transaction had removed under
/// that id are back.
pub proof fn delete_of_absent_user_changes_nothing(storage: Storage, id: int)
    requires
        storage.at_rest(),
        !storage.tables.has_user(id),
    ensures
        service::delete_user(storage, id) == (
            storage,
            Some(ReplyView::bare(NOT_FOUND, "User not found"@)),
        ),
        ReplyView::bare(NOT_FOUND, "User not found"@).failure() == Some(Failure::NotFound),
{
    reveal_with_fuel(run, 5);
}

/// Deleting a todo through a user who does not own it is refused with
/// `NotFound`, and storage stays as it is: the todo is still its owner's.
pub proof fn foreign_todo_is_not_deleted(storage: Storage, user_id: int, owner: int, todoid: int)
    requires
        storage.at_rest(),
        storage.tables.has_user(user_id),
        storage.tables.has_todo(owner, todoid),
        owner != user_id,
    ensures
        service::delete_todo(storage, user_id, todoid) == (
            storage,
            Some(ReplyView::fail(NOT_FOUND, todo_not_found_text(user_id as nat, todoid as nat))),
        ),
        storage.tables.todos_of(owner).contains(
            storage.tables.todos[storage.tables.todo_index(owner, todoid)],
        ),
{
    reveal_with_fuel(run, 3);
    let place = storage.tables.todo_index(owner, todoid);
    assert(storage.tables.todo_at(owner, todoid, place));
    if storage.tables.has_todo(user_id, todoid) {
        let other = storage.tables.todo_index(user_id, todoid);
        assert(storage.tables.todo_at(user_id, todoid, other));
        storage.tables.lemma_todo_found(user_id, todoid, other);
        if other < place {
            assert(storage.tables.todos[other].todoid != storage.tables.todos[place].todoid);
        } else if place < other {
            assert(storage.tables.todos[place].todoid != storage.tables.todos[other].todoid);
        }
    }
    storage.tables.todos.lemma_filter_contains(|todo: TodoView| todo.user_id == owner, place);
}

/// The user comes first: every request about the todos of a user that is
/// not there is refused with `NotFound` for the user, whatever todos it
/// names, and storage stays as it is.
pub proof fn todo_requests_need_their_user(
    storage: Storage,
    user_id: int,
    todoid: int,
    names: Seq<Seq<char>>,
    edits: Seq<TodoEditView>,
    range: DateRangeView,
)
    requires
        storage.at_rest(),
        !storage.tables.has_user(user_id),
    ensures
        orchestrator::user_not_found().failure() == Some(Failure::NotFound),
        service::add_todos(storage, user_id, names) == (
            storage,
            Some(orchestrator::user_not_found()),
        ),
        service::update_todos(storage, user_id, edits) == (
            storage,
            Some(orchestrator::user_not_found()),
        ),
        service::delete_todo(storage, user_id, todoid) == (
            storage,
            Some(orchestrator::user_not_found()),
        ),
        service::todos_by_date(storage, user_id, range) == (
            storage,
            Some(orchestrator::user_not_found()),
        ),
        service::user_with_todos(storage, user_id) == (
            storage,
            Some(orchestrator::user_not_found()),
        ),
{
    reveal_with_fuel(run, 3);
}

/// A query by creation time gives exactly the todos of the user that
/// storage finds between the two bounds, and changes nothing.
pub proof fn range_query_gives_what_lies_between(
    storage: Storage,
    user_id: int,
    range: DateRangeView,
)
    requires
        storage.at_rest(),
        storage.tables.has_user(user_id),
    ensures
        service::todos_by_date(storage, user_id, range) == (
            storage,
            Some(
                ReplyView::success(
                    None,
                    PayloadView::TodosInRange {
                        user_id,
                        from: range.start_date,
                        to: range.end_date,
                        todos: storage.todos_in_range(user_id, range.start_date, range.end_date),
                    },
                ),
            ),
        ),
{
    reveal_with_fuel(run, 3);
}

/// For a user with a single todo, the todos within a range are that todo if
/// its creation time lies between the bounds, and none if it does not.
pub proof fn range_of_a_single_todo(
    storage: Storage,
    user_id: int,
    range: DateRangeView,
    todo: TodoView,
)
    requires
        storage.tables.todos_of(user_id) == seq![todo],
    ensures
        storage.todos_in_range(user_id, range.start_date, range.end_date) == if (storage.between)(
            todo.created_at,
            range.start_date,
            range.end_date,
        ) {
            seq![todo]
        } else {
            Seq::<TodoView>::empty()
        },
{
    let within = |row: TodoView| (storage.between)(row.created_at, range.start_date, range.end_date);
    let none = Seq::<TodoView>::empty();
    assert(none.push(todo) =~= seq![todo]);
    none.lemma_filter_len(within);
    none.lemma_filter_push(todo, within);
    assert(none.filter(within) =~= none);
}

/// Storage after one user after the other is created.
pub open spec fn create_users(storage: Storage, users: Seq<UserFieldsView>) -> Storage
    decreases users.len(),
{
    if users.len() == 0 {
        storage
    } else {
        service::create_user(create_users(storage, users.drop_last()), users.last()).0
    }
}

/// After users are created, the list of users holds what it held before
/// and, after that, one entry for each new user with the fields that were
/// sent: as many more entries as users were created.
pub proof fn listing_shows_created_users(storage: Storage, users: Seq<UserFieldsView>)
    requires
        storage.at_rest(),
    ensures
        ({
            let stored = create_users(storage, users);
            let created = Seq::new(
                users.len(),
                |k: int| users[k].with_id(storage.tables.next_user + k),
            );
            &&& stored.at_rest()
            &&& stored.tables.next_user == storage.tables.next_user + users.len()
            &&& stored.tables.users == storage.tables.users + created
            &&& service::list_users(stored) == (
                stored,
                Some(ReplyView::success(None, PayloadView::Users(storage.tables.users + created))),
            )
        }),
    decreases users.len(),
{
    reveal_with_fuel(run, 2);
    let stored = create_users(storage, users);
    let created = Seq::new(users.len(), |k: int| users[k].with_id(storage.tables.next_user + k));
    if users.len() == 0 {
        assert(storage.tables.users + created =~= storage.tables.users);
    } else {
        let front = users.drop_last();
        let middle = create_users(storage, front);
        listing_shows_created_users(storage, front);
        created_user_is_fetched(middle, users.last());
        let earlier = Seq::new(front.len(), |k: int| front[k].with_id(storage.tables.next_user + k));
        assert(stored.tables.users =~= storage.tables.users + created);
    }
}

/// Whatever a handler asks for and whatever it replies, the request leaves
/// storage with its primary keys intact and without an open transaction.
pub proof fn requests_leave_storage_at_rest<S>(
    plan: spec_fn(ProgressView<S>) -> StepView<S>,
    storage: Storage,
    step: StepView<S>,
    turns: nat,
)
    requires
        storage.sound(),
    ensures
        run(plan, storage, step, turns).0.at_rest(),
    decreases turns,
{
    if let StepView::Run(command, state) = step {
        if turns > 0 {
            storage.lemma_answer_keeps_keys(command);
            let (next, event) = storage.answer(command);
            requests_leave_storage_at_rest(
                plan,
                next,
                plan(ProgressView::Resumed(state, event)),
                (turns - 1) as nat,
            );
        }
    }
}

proof fn lemma_add_rest(
    plan: spec_fn(ProgressView<AddingView>) -> StepView<AddingView>,
    storage: Storage,
    user_id: int,
    todos: Seq<Seq<char>>,
    index: int,
    turns: nat,
)
    requires
        forall|at: ProgressView<AddingView>| #[trigger]
            plan(at) == orchestrator::add_todos(user_id, todos, at),
        0 <= index <= todos.len(),
        turns >= todos.len() - index,
    ensures
        run(plan, storage, orchestrator::add_todos_from(user_id, todos, index), turns) == (
            storage.with(
                storage.tables.insert_todos(user_id, todos.skip(index), storage.now),
            ).settle(),
            Some(
                ReplyView::success(
                    Some("Todos added successfully"@),
                    PayloadView::UserId(user_id),
                ),
            ),
        ),
    decreases todos.len() - index,
{
    if index < todos.len() {
        let (next, event) = storage.answer(
            CommandView::InsertTodo { user_id, todoname: todos[index] },
        );
        let at = ProgressView::Resumed(AddingView::Inserting(index), event);
        assert(plan(at) == orchestrator::add_todos_from(user_id, todos, index + 1));
        lemma_add_rest(plan, next, user_id, todos, index + 1, (turns - 1) as nat);
        assert(todos.skip(index).drop_first() =~= todos.skip(index + 1));
        assert(todos.skip(index).first() == todos[index]);
    }
}

/// Adding todos to a user that is there inserts them all, in their order,
/// under ids that rise by one, and changes nothing else.
pub proof fn added_todos_are_stored_in_order(storage: Storage, user_id: int, todos: Seq<Seq<char>>)
    requires
        storage.at_rest(),
        storage.tables.has_user(user_id),
    ensures
        ({
            let (stored, reply) = service::add_todos(storage, user_id, todos);
            &&& reply == Some(
                ReplyView::success(
                    Some("Todos added successfully"@),
                    PayloadView::UserId(user_id),
                ),
            )
            &&& stored.at_rest()
            &&& stored.tables.users == storage.tables.users
            &&& stored.tables.todos == storage.tables.todos + Seq::new(
                todos.len(),
                |k: int|
                    TodoView {
                        todoid: storage.tables.next_todo + k,
                        user_id,
                        todoname: todos[k],
                        created_at: Some(storage.now),
                    },
            )
        }),
{
    let plan = |at: ProgressView<AddingView>| orchestrator::add_todos(user_id, todos, at);
    reveal_with_fuel(run, 2);
    lemma_add_rest(plan, storage, user_id, todos, 0, todos.len());
    assert(todos.skip(0) =~= todos);
    storage.tables.lemma_insert_todos(user_id, todos, storage.now);
    requests_leave_storage_at_rest(plan, storage, plan(ProgressView::Start), todos.len() + 1);
}

/// The reply to "update todos" when `missing` is what
/// [`Tables::edit_todos`] reports.
pub open spec fn edits_reply(user_id: int, missing: Option<int>) -> ReplyView {
    match missing {
        None => ReplyView::success(
            Some("Todos updated successfully"@),
            PayloadView::UserId(user_id),
        ),
        Some(todoid) => ReplyView::fail(
            NOT_FOUND,
            todo_missing_text(user_id as nat, todoid as nat),
        ),
    }
}

proof fn lemma_edit_rest(
    plan: spec_fn(ProgressView<EditingView>) -> StepView<EditingView>,
    storage: Storage,
    user_id: int,
    edits: Seq<TodoEditView>,
    index: int,
    turns: nat,
)
    requires
        forall|at: ProgressView<EditingView>| #[trigger]
            plan(at) == orchestrator::update_todos(user_id, edits, at),
        0 <= index <= edits.len(),
        turns >= edits.len() - index,
    ensures
        run(plan, storage, orchestrator::update_todos_from(user_id, edits, index), turns) == (
            storage.with(storage.tables.edit_todos(user_id, edits.skip(index)).0).settle(),
            Some(edits_reply(user_id, storage.tables.edit_todos(user_id, edits.skip(index)).1)),
        ),
    decreases edits.len() - index,
{
    reveal_with_fuel(run, 2);
    if index < edits.len() {
        let edit = edits[index];
        let (next, event) = storage.answer(
            CommandView::UpdateTodo { user_id, todoid: edit.todoid, todoname: edit.todoname },
        );
        let at = ProgressView::Resumed(
            EditingView::Updating { index, todoid: edit.todoid },
            event,
        );
        assert(edits.skip(index).first() == edit);
        assert(edits.skip(index).drop_first() =~= edits.skip(index + 1));
        if storage.tables.has_todo(user_id, edit.todoid) {
            assert(plan(at) == orchestrator::update_todos_from(user_id, edits, index + 1));
            lemma_edit_rest(plan, next, user_id, edits, index + 1, (turns - 1) as nat);
        } else {
            assert(plan(at) == StepView::<EditingView>::Done(edits_reply(user_id, Some(edit.todoid))));
            assert(next == storage);
        }
    }
}

/// Updating todos of a user that is there applies the edits in their
/// order. The first edit that names no todo of this user ends the request
/// with `NotFound` for that todo, and the edits before it stay applied; if
/// every edit finds its todo, all are applied.
pub proof fn edits_stop_at_the_first_miss(storage: Storage, user_id: int, edits: Seq<TodoEditView>)
    requires
        storage.at_rest(),
        storage.tables.has_user(user_id),
    ensures
        ({
            let (tables, missing) = storage.tables.edit_todos(user_id, edits);
            let (stored, reply) = service::update_todos(storage, user_id, edits);
            &&& stored == storage.with(tables)
            &&& stored.at_rest()
            &&& reply == Some(edits_reply(user_id, missing))
            &&& missing is Some ==> edits_reply(user_id, missing).failure() == Some(
                Failure::NotFound,
            )
            &&& missing is None ==> edits_reply(user_id, missing).failure() is None
        }),
{
    let plan = |at: ProgressView<EditingView>| orchestrator::update_todos(user_id, edits, at);
    reveal_with_fuel(run, 2);
    lemma_edit_rest(plan, storage, user_id, edits, 0, edits.len());
    assert(edits.skip(0) =~= edits);
    requests_leave_storage_at_rest(plan, storage, plan(ProgressView::Start), edits.len() + 1);
}

/// Every request is answered: against storage at rest, each handler comes
/// to its reply within the commands that its request allows.
pub proof fn every_request_is_answered(
    storage: Storage,
    id: int,
    todoid: int,
    user: UserFieldsView,
    patch: UserPatchView,
    names: Seq<Seq<char>>,
    edits: Seq<TodoEditView>,
    range: DateRangeView,
)
    requires
        storage.at_rest(),
    ensures
        service::create_user(storage, user).1 is Some,
        service::add_todos(storage, id, names).1 is Some,
        service::user_with_todos(storage, id).1 is Some,
        service::list_users(storage).1 is Some,
        service::todos_by_date(storage, id, range).1 is Some,
        service::delete_user(storage, id).1 is Some,
        service::delete_todo(storage, id, todoid).1 is Some,
        service::update_user(storage, id, patch).1 is Some,
        service::update_todos(storage, id, edits).1 is Some,
{
    reveal_with_fuel(run, 5);
    if storage.tables.has_user(id) {
        added_todos_are_stored_in_order(storage, id, names);
        edits_stop_at_the_first_miss(storage, id, edits);
    } else {
        todo_requests_need_their_user(storage, id, todoid, names, edits, range);
    }
}

/// The handler is taken up after the delete of the user matched a row.
pub open spec fn follows_a_deleted_user(at: ProgressView<Purge>) -> bool {
    match at {
        ProgressView::Resumed(Purge::DeletingUser, event) => match event.written() {
            Ok(written) => written.rows_affected != 0,
            Err(_) => false,
        },
        _ => false,
    }
}

/// Whatever storage answers, the handler asks for the commit only once the
/// delete of the user has matched a row. On every other path the request
/// ends with the transaction open, and so undone.
pub proof fn commit_needs_a_deleted_user(id: int, at: ProgressView<Purge>)
    ensures
        (orchestrator::delete_user(id, at) matches StepView::Run(CommandView::Commit, _))
            ==> follows_a_deleted_user(at),
{
}

/// The handler that adds todos is taken up after the lookup found the user,
/// or after an insert of the batch went through.
pub open spec fn adding_follows_the_user(at: ProgressView<AddingView>) -> bool {
    match at {
        ProgressView::Start => false,
        ProgressView::Resumed(AddingView::Checking, event) => event.found() == Ok::<
            bool,
            Seq<char>,
        >(true),
        ProgressView::Resumed(AddingView::Inserting(_), event) => event.written() is Ok,
    }
}

/// The handler that updates todos is taken up after the lookup found the
/// user, or after an update of the batch matched its todo.
pub open spec fn editing_follows_the_user(at: ProgressView<EditingView>) -> bool {
    match at {
        ProgressView::Start => false,
        ProgressView::Resumed(EditingView::Checking, event) => event.found() == Ok::<
            bool,
            Seq<char>,
        >(true),
        ProgressView::Resumed(EditingView::Updating { .. }, event) => match event.written() {
            Ok(written) => written.rows_affected != 0,
            Err(_) => false,
        },
    }
}

/// The handler is taken up after the lookup found the user.
pub open spec fn follows_the_user(at: ProgressView<Guarded>) -> bool {
    match at {
        ProgressView::Resumed(Guarded::Checking, event) => event.found() == Ok::<bool, Seq<char>>(
            true,
        ),
        _ => false,
    }
}

/// Whatever storage answers, a handler touches the todos of a user only
/// after storage has said that the user is there: the first command of each
/// such request is the lookup of the user, and the command on the todos
/// follows a lookup that found the user or, in a batch, a write that went
/// through and, for an update, matched its todo.
pub proof fn todos_are_touched_after_the_user_is_found(
    user_id: int,
    todoid: int,
    names: Seq<Seq<char>>,
    edits: Seq<TodoEditView>,
    range: DateRangeView,
    adding: ProgressView<AddingView>,
    editing: ProgressView<EditingView>,
    single: ProgressView<Guarded>,
)
    ensures
        orchestrator::add_todos(user_id, names, ProgressView::Start) == StepView::Run(
            CommandView::UserExists { id: user_id },
            AddingView::Checking,
        ),
        orchestrator::update_todos(user_id, edits, ProgressView::Start) == StepView::Run(
            CommandView::UserExists { id: user_id },
            EditingView::Checking,
        ),
        orchestrator::delete_todo(user_id, todoid, ProgressView::Start) == StepView::Run(
            CommandView::UserExists { id: user_id },
            Guarded::Checking,
        ),
        orchestrator::todos_by_date(user_id, range, ProgressView::Start) == StepView::Run(
            CommandView::UserExists { id: user_id },
            Guarded::Checking,
        ),
        (orchestrator::add_todos(user_id, names, adding) matches StepView::Run(
            CommandView::InsertTodo { .. },
            _,
        )) ==> adding_follows_the_user(adding),
        (orchestrator::update_todos(user_id, edits, editing) matches StepView::Run(
            CommandView::UpdateTodo { .. },
            _,
        )) ==> editing_follows_the_user(editing),
        (orchestrator::delete_todo(user_id, todoid, single) matches StepView::Run(
            CommandView::DeleteTodo { .. },
            _,
        )) ==> follows_the_user(single),
        (orchestrator::todos_by_date(user_id, range, single) matches StepView::Run(
            CommandView::FindTodosByUserInRange { .. },
            _,
        )) ==> follows_the_user(single),
{
}

/// A step that is a reply reports success with the code 200 and the status
/// `success`, or a failure with one of the three codes of failure, another
/// status or none, and a message.
pub open spec fn classified<S>(step: StepView<S>) -> bool {
    match step {
        StepView::Run(_, _) => true,
        StepView::Done(reply) => if reply.code == OK {
            reply.status == Some(Status::Success)
        } else {
            &&& reply.code == BAD_REQUEST || reply.code == NOT_FOUND || reply.code
                == INTERNAL_SERVER_ERROR
            &&& reply.status != Some(Status::Success)
            &&& reply.message is Some
            &&& reply.data is Nothing
        },
    }
}

/// Whatever storage answers, every reply of every handler is either a
/// success or one of `NotFound`, `InvalidInput` and `StorageError`. And
/// `InvalidInput` is the reply to an update without any field, at its
/// start, and to nothing else.
pub proof fn replies_are_classified(
    id: int,
    todoid: int,
    user: UserFieldsView,
    patch: UserPatchView,
    names: Seq<Seq<char>>,
    edits: Seq<TodoEditView>,
    range: DateRangeView,
    single: ProgressView<Single>,
    guarded: ProgressView<Guarded>,
    holding: ProgressView<HoldingView>,
    purge: ProgressView<Purge>,
    adding: ProgressView<AddingView>,
    editing: ProgressView<EditingView>,
)
    ensures
        classified(orchestrator::create_user(user, single)),
        classified(orchestrator::add_todos(id, names, adding)),
        classified(orchestrator::user_with_todos(id, holding)),
        classified(orchestrator::list_users(single)),
        classified(orchestrator::todos_by_date(id, range, guarded)),
        classified(orchestrator::delete_user(id, purge)),
        classified(orchestrator::delete_todo(id, todoid, guarded)),
        classified(orchestrator::update_user(id, patch, holding)),
        classified(orchestrator::update_todos(id, edits, editing)),
        (orchestrator::update_user(id, patch, holding) matches StepView::Done(reply)
            && reply.failure() == Some(Failure::InvalidInput)) <==> (holding is Start
            && patch.is_empty()),
{
}

} // verus!

//! What each handler decides, stated over the views of its arguments.
//!
//! Every function here takes the request and the place where the handler is
//! taken up, and gives the step that the handler of the same request takes
//! there.

use vstd::prelude::*;
use crate::flow::{
    AddingView, EditingView, Guarded, HoldingView, ProgressView, Purge, Single, StepView,
};
use crate::repository::CommandView;
use crate::response::{PayloadView, ReplyView, Status, BAD_REQUEST, NOT_FOUND, INTERNAL_SERVER_ERROR, OK};
use crate::schema::{DateRangeView, TodoEditView, UserFieldsView, UserPatchView};
use crate::text::{todo_deleted_text, todo_missing_text, todo_not_found_text};

verus! {

/// The reply that says that the service is up.
pub open spec fn alive() -> ReplyView {
    ReplyView {
        code: OK,
        status: Some(Status::Okay),
        message: Some("API Services"@),
        data: PayloadView::Nothing,
    }
}

/// The reply that says that the user is not there.
pub open spec fn user_not_found() -> ReplyView {
    ReplyView::fail(NOT_FOUND, "User not found"@)
}

/// The step after the lookup of the user, where `then` is the step to take
/// if the user is there: a failure of the lookup is reported, and so is a
/// user that is not there.
pub open spec fn after_check<S>(found: Result<bool, Seq<char>>, then: StepView<S>) -> StepView<S> {
    match found {
        Err(detail) => StepView::Done(ReplyView::error("DB error: "@ + detail)),
        Ok(false) => StepView::Done(user_not_found()),
        Ok(true) => then,
    }
}

/// Create a user: insert, and report the id that storage assigned.
pub open spec fn create_user(user: UserFieldsView, at: ProgressView<Single>) -> StepView<Single> {
    match at {
        ProgressView::Start => StepView::Run(CommandView::InsertUser { user }, Single::Waiting),
        ProgressView::Resumed(_, event) => match event.written() {
            Err(detail) => StepView::Done(ReplyView::error("User insert error: "@ + detail)),
            Ok(written) => StepView::Done(
                ReplyView::success(
                    Some("User created successfully"@),
                    PayloadView::UserId(written.last_insert_id),
                ),
            ),
        },
    }
}

/// The step of "add todos" once the todos before `index` are inserted: the
/// insert of the todo at `index`, or the reply if there is none.
pub open spec fn add_todos_from(user_id: int, todos: Seq<Seq<char>>, index: int) -> StepView<
    AddingView,
> {
    if 0 <= index < todos.len() {
        StepView::Run(
            CommandView::InsertTodo { user_id, todoname: todos[index] },
            AddingView::Inserting(index),
        )
    } else {
        StepView::Done(
            ReplyView::success(Some("Todos added successfully"@), PayloadView::UserId(user_id)),
        )
    }
}

/// Add todos to a user: the user must be there; then the todos are inserted
/// in their order, and the first insert that fails ends the request.
pub open spec fn add_todos(user_id: int, todos: Seq<Seq<char>>, at: ProgressView<AddingView>)
    -> StepView<AddingView> {
    match at {
        ProgressView::Start => StepView::Run(
            CommandView::UserExists { id: user_id },
            AddingView::Checking,
        ),
        ProgressView::Resumed(AddingView::Checking, event) => after_check(
            event.found(),
            add_todos_from(user_id, todos, 0),
        ),
        ProgressView::Resumed(AddingView::Inserting(index), event) => match event.written() {
            Err(detail) => StepView::Done(ReplyView::error("Insert error: "@ + detail)),
            Ok(_) => add_todos_from(user_id, todos, index + 1),
        },
    }
}

/// Get a user with the user's todos: the user must be there; a failure to
/// fetch the todos counts as no todos.
pub open spec fn user_with_todos(id: int, at: ProgressView<HoldingView>) -> StepView<HoldingView> {
    match at {
        ProgressView::Start => StepView::Run(CommandView::FindUser { id }, HoldingView::Fetching),
        ProgressView::Resumed(HoldingView::Fetching, event) => match event.user() {
            Err(detail) => StepView::Done(ReplyView::error(detail)),
            Ok(None) => StepView::Done(user_not_found()),
            Ok(Some(user)) => StepView::Run(
                CommandView::FindTodosByUser { user_id: id },
                HoldingView::With(user),
            ),
        },
        ProgressView::Resumed(HoldingView::With(user), event) => StepView::Done(
            ReplyView::success(
                None,
                PayloadView::UserWithTodos {
                    user,
                    todos: match event.todos() {
                        Ok(todos) => todos,
                        Err(_) => Seq::empty(),
                    },
                },
            ),
        ),
    }
}

/// List the users.
pub open spec fn list_users(at: ProgressView<Single>) -> StepView<Single> {
    match at {
        ProgressView::Start => StepView::Run(CommandView::ListUsers, Single::Waiting),
        ProgressView::Resumed(_, event) => match event.users() {
            Err(detail) => StepView::Done(ReplyView::error(detail)),
            Ok(users) => StepView::Done(ReplyView::success(None, PayloadView::Users(users))),
        },
    }
}

/// Get the todos of a user by creation time: the user must be there; the
/// bounds go to storage as they came.
pub open spec fn todos_by_date(user_id: int, range: DateRangeView, at: ProgressView<Guarded>)
    -> StepView<Guarded> {
    match at {
        ProgressView::Start => StepView::Run(
            CommandView::UserExists { id: user_id },
            Guarded::Checking,
        ),
        ProgressView::Resumed(Guarded::Checking, event) => after_check(
            event.found(),
            StepView::Run(
                CommandView::FindTodosByUserInRange {
                    user_id,
                    start: range.start_date,
                    end: range.end_date,
                },
                Guarded::Acting,
            ),
        ),
        ProgressView::Resumed(Guarded::Acting, event) => match event.todos() {
            Err(detail) => StepView::Done(ReplyView::error("Query error: "@ + detail)),
            Ok(todos) => StepView::Done(
                ReplyView::success(
                    None,
                    PayloadView::TodosInRange {
                        user_id,
                        from: range.start_date,
                        to: range.end_date,
                        todos,
                    },
                ),
            ),
        },
    }
}

/// Delete a user with the user's todos, in one transaction: the todos go
/// first, then the user. If no user row went, the request ends without a
/// commit, which undoes the delete of the todos.
pub open spec fn delete_user(id: int, at: ProgressView<Purge>) -> StepView<Purge> {
    match at {
        ProgressView::Start => StepView::Run(CommandView::Begin, Purge::Opening),
        ProgressView::Resumed(Purge::Opening, event) => match event.ready() {
            Err(detail) => StepView::Done(ReplyView::error(detail)),
            Ok(_) => StepView::Run(
                CommandView::DeleteTodosByUser { user_id: id },
                Purge::DeletingTodos,
            ),
        },
        ProgressView::Resumed(Purge::DeletingTodos, event) => match event.written() {
            Err(detail) => StepView::Done(ReplyView::bare(INTERNAL_SERVER_ERROR, detail)),
            Ok(_) => StepView::Run(CommandView::DeleteUser { id }, Purge::DeletingUser),
        },
        ProgressView::Resumed(Purge::DeletingUser, event) => match event.written() {
            Err(detail) => StepView::Done(ReplyView::bare(INTERNAL_SERVER_ERROR, detail)),
            Ok(written) => if written.rows_affected == 0 {
                StepView::Done(ReplyView::bare(NOT_FOUND, "User not found"@))
            } else {
                StepView::Run(CommandView::Commit, Purge::Committing)
            },
        },
        ProgressView::Resumed(Purge::Committing, event) => match event.ready() {
            Err(detail) => StepView::Done(ReplyView::error(detail)),
            Ok(_) => StepView::Done(
                ReplyView::success(Some("User and todos deleted"@), PayloadView::Nothing),
            ),
        },
    }
}

/// Delete one todo of a user: the user must be there, and the todo must be
/// that user's.
pub open spec fn delete_todo(user_id: int, todoid: int, at: ProgressView<Guarded>) -> StepView<
    Guarded,
> {
    match at {
        ProgressView::Start => StepView::Run(
            CommandView::UserExists { id: user_id },
            Guarded::Checking,
        ),
        ProgressView::Resumed(Guarded::Checking, event) => after_check(
            event.found(),
            StepView::Run(CommandView::DeleteTodo { user_id, todoid }, Guarded::Acting),
        ),
        ProgressView::Resumed(Guarded::Acting, event) => match event.written() {
            Err(detail) => StepView::Done(ReplyView::error("Delete error: "@ + detail)),
            Ok(written) => if written.rows_affected == 0 {
                StepView::Done(
                    ReplyView::fail(
                        NOT_FOUND,
                        todo_not_found_text(user_id as nat, todoid as nat),
                    ),
                )
            } else {
                StepView::Done(
                    ReplyView::success(
                        Some(todo_deleted_text(user_id as nat, todoid as nat)),
                        PayloadView::Nothing,
                    ),
                )
            },
        },
    }
}

/// Update a user: a patch without any field is refused before storage is
/// asked anything. Else the user must be there; the patch is written over
/// the stored fields and the whole record is stored again. If that matches
/// no row, the user has gone meanwhile.
pub open spec fn update_user(id: int, patch: UserPatchView, at: ProgressView<HoldingView>)
    -> StepView<HoldingView> {
    match at {
        ProgressView::Start => if patch.is_empty() {
            StepView::Done(
                ReplyView::fail(BAD_REQUEST, "At least one field must be provided for update"@),
            )
        } else {
            StepView::Run(CommandView::FindUser { id }, HoldingView::Fetching)
        },
        ProgressView::Resumed(HoldingView::Fetching, event) => match event.user() {
            Err(detail) => StepView::Done(ReplyView::error("DB error: "@ + detail)),
            Ok(None) => StepView::Done(user_not_found()),
            Ok(Some(user)) => StepView::Run(
                CommandView::UpdateUser { id, user: UserFieldsView::of(patch.apply(user)) },
                HoldingView::With(patch.apply(user)),
            ),
        },
        ProgressView::Resumed(HoldingView::With(user), event) => match event.written() {
            Err(detail) => StepView::Done(ReplyView::error("Update error: "@ + detail)),
            Ok(written) => if written.rows_affected == 0 {
                StepView::Done(user_not_found())
            } else {
                StepView::Done(
                    ReplyView::success(
                        Some("User updated successfully"@),
                        PayloadView::User(user),
                    ),
                )
            },
        },
    }
}

/// The step of "update todos" once the items before `index` are written: the
/// update of the item at `index`, or the reply if there is none.
pub open spec fn update_todos_from(user_id: int, edits: Seq<TodoEditView>, index: int) -> StepView<
    EditingView,
> {
    if 0 <= index < edits.len() {
        StepView::Run(
            CommandView::UpdateTodo {
                user_id,
                todoid: edits[index].todoid,
                todoname: edits[index].todoname,
            },
            EditingView::Updating { index, todoid: edits[index].todoid },
        )
    } else {
        StepView::Done(
            ReplyView::success(Some("Todos updated successfully"@), PayloadView::UserId(user_id)),
        )
    }
}

/// Update todos of a user: the user must be there; then the items are
/// written in their order. The first item that matches no todo of this user
/// ends the request, and so does the first write that fails.
pub open spec fn update_todos(user_id: int, edits: Seq<TodoEditView>, at: ProgressView<EditingView>)
    -> StepView<EditingView> {
    match at {
        ProgressView::Start => StepView::Run(
            CommandView::UserExists { id: user_id },
            EditingView::Checking,
        ),
        ProgressView::Resumed(EditingView::Checking, event) => after_check(
            event.found(),
            update_todos_from(user_id, edits, 0),
        ),
        ProgressView::Resumed(EditingView::Updating { index, todoid }, event) => {
            match event.written() {
                Err(detail) => StepView::Done(ReplyView::error("Update error: "@ + detail)),
                Ok(written) => if written.rows_affected == 0 {
                    StepView::Done(
                        ReplyView::fail(
                            NOT_FOUND,
                            todo_missing_text(user_id as nat, todoid as nat),
                        ),
                    )
                } else {
                    update_todos_from(user_id, edits, index + 1)
                },
            }
        },
    }
}

} // verus!

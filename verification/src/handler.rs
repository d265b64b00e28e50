//! The request handlers.
//!
//! A handler never touches storage. It is called once at the start of a
//! request and once after each command that it asked for, and each time it
//! says what comes next: see [`crate::flow`]. What it says is stated, for
//! every handler, by the function of [`crate::orchestrator`] that its
//! contract names.

use vstd::prelude::*;
use crate::flow::{Adding, Editing, Guarded, Holding, Progress, Purge, Single, Step};
use crate::model::{UsersModel, UsersModelResponse};
use crate::orchestrator;
use crate::repository::Command;
use crate::response::{Payload, Reply, Status, BAD_REQUEST, INTERNAL_SERVER_ERROR, NOT_FOUND, OK};
use crate::schema::{
    CreateTodoSchema,
    CreateUsersSchema,
    DateRangeQuery,
    UpdateTodoSchema,
    UpdateUsersSchema,
};
use crate::text::{prefixed, todo_deleted_message, todo_missing_message, todo_not_found_message};

verus! {

/// The user as it is sent out: every field as it is stored.
pub fn to_users_response(user: &UsersModel) -> (response: UsersModelResponse)
    ensures
        response@ == user@,
{
    UsersModelResponse {
        id: user.id,
        fname: user.fname.clone(),
        lname: user.lname.clone(),
        username: user.username.clone(),
        userpassword: user.userpassword.clone(),
    }
}

fn to_users_responses(users: &Vec<UsersModel>) -> (responses: Vec<UsersModelResponse>)
    ensures
        responses.deep_view() == users.deep_view(),
{
    let mut responses: Vec<UsersModelResponse> = Vec::new();
    let mut index: usize = 0;
    while index < users.len()
        invariant
            index <= users.len(),
            responses.len() == index,
            forall|i: int| 0 <= i < index ==> (#[trigger] responses[i])@ == users[i]@,
        decreases users.len() - index,
    {
        responses.push(to_users_response(&users[index]));
        index = index + 1;
    }
    assert(responses.deep_view() =~= users.deep_view());
    responses
}

fn user_not_found() -> (reply: Reply)
    ensures
        reply@ == orchestrator::user_not_found(),
{
    Reply::fail(NOT_FOUND, String::from_str("User not found"))
}

/// Says that the service is up. Storage is not asked.
pub fn todoapp_handler() -> (reply: Reply)
    ensures
        reply@ == orchestrator::alive(),
{
    Reply {
        code: OK,
        status: Some(Status::Okay),
        message: Some(String::from_str("API Services")),
        data: Payload::Nothing,
    }
}

/// Creates a user.
pub fn create_user_handler(body: &CreateUsersSchema, at: Progress<Single>) -> (step: Step<Single>)
    ensures
        step@ == orchestrator::create_user(body@, at@),
{
    match at {
        Progress::Start => Step::Run(Command::InsertUser { user: body.clone() }, Single::Waiting),
        Progress::Resumed(_, event) => match event.into_written() {
            Err(detail) => Step::Done(Reply::error(prefixed("User insert error: ", &detail))),
            Ok(written) => Step::Done(
                Reply::success(
                    Some(String::from_str("User created successfully")),
                    Payload::UserId(written.last_insert_id),
                ),
            ),
        },
    }
}

fn add_todos_from(user_id: u64, todos: &Vec<CreateTodoSchema>, index: usize) -> (step: Step<Adding>)
    ensures
        step@ == orchestrator::add_todos_from(user_id as int, todos.deep_view(), index as int),
{
    if index < todos.len() {
        Step::Run(
            Command::InsertTodo { user_id, todoname: todos[index].todoname.clone() },
            Adding::Inserting(index),
        )
    } else {
        Step::Done(
            Reply::success(
                Some(String::from_str("Todos added successfully")),
                Payload::UserId(user_id),
            ),
        )
    }
}

/// Adds todos to a user.
pub fn create_todos_for_user_handler(
    user_id: u64,
    todos: &Vec<CreateTodoSchema>,
    at: Progress<Adding>,
) -> (step: Step<Adding>)
    ensures
        step@ == orchestrator::add_todos(user_id as int, todos.deep_view(), at@),
{
    match at {
        Progress::Start => Step::Run(Command::UserExists { id: user_id }, Adding::Checking),
        Progress::Resumed(Adding::Checking, event) => match event.into_found() {
            Err(detail) => Step::Done(Reply::error(prefixed("DB error: ", &detail))),
            Ok(false) => Step::Done(user_not_found()),
            Ok(true) => add_todos_from(user_id, todos, 0),
        },
        Progress::Resumed(Adding::Inserting(index), event) => match event.into_written() {
            Err(detail) => Step::Done(Reply::error(prefixed("Insert error: ", &detail))),
            Ok(_) => if index < todos.len() {
                add_todos_from(user_id, todos, index + 1)
            } else {
                add_todos_from(user_id, todos, index)
            },
        },
    }
}

/// Gets a user with the user's todos.
pub fn get_user_with_todos_handler(id: u64, at: Progress<Holding>) -> (step: Step<Holding>)
    ensures
        step@ == orchestrator::user_with_todos(id as int, at@),
{
    match at {
        Progress::Start => Step::Run(Command::FindUser { id }, Holding::Fetching),
        Progress::Resumed(Holding::Fetching, event) => match event.into_user() {
            Err(detail) => Step::Done(Reply::error(detail)),
            Ok(None) => Step::Done(user_not_found()),
            Ok(Some(user)) => Step::Run(
                Command::FindTodosByUser { user_id: id },
                Holding::With(user),
            ),
        },
        Progress::Resumed(Holding::With(user), event) => {
            let todos = match event.into_todos() {
                Ok(todos) => todos,
                Err(_) => Vec::new(),
            };
            assert(event@.todos() is Err ==> todos.deep_view() =~= Seq::empty());
            Step::Done(
                Reply::success(
                    None,
                    Payload::UserWithTodos { user: to_users_response(&user), todos },
                ),
            )
        },
    }
}

/// Lists the users.
pub fn list_users_handler(at: Progress<Single>) -> (step: Step<Single>)
    ensures
        step@ == orchestrator::list_users(at@),
{
    match at {
        Progress::Start => Step::Run(Command::ListUsers, Single::Waiting),
        Progress::Resumed(_, event) => match event.into_users() {
            Err(detail) => Step::Done(Reply::error(detail)),
            Ok(users) => Step::Done(
                Reply::success(None, Payload::Users(to_users_responses(&users))),
            ),
        },
    }
}

/// Gets the todos of a user that were created between two bounds.
pub fn user_todos_by_date_handler(user_id: u64, query: &DateRangeQuery, at: Progress<Guarded>) -> (step:
    Step<Guarded>)
    ensures
        step@ == orchestrator::todos_by_date(user_id as int, query@, at@),
{
    match at {
        Progress::Start => Step::Run(Command::UserExists { id: user_id }, Guarded::Checking),
        Progress::Resumed(Guarded::Checking, event) => match event.into_found() {
            Err(detail) => Step::Done(Reply::error(prefixed("DB error: ", &detail))),
            Ok(false) => Step::Done(user_not_found()),
            Ok(true) => Step::Run(
                Command::FindTodosByUserInRange {
                    user_id,
                    start: query.start_date.clone(),
                    end: query.end_date.clone(),
                },
                Guarded::Acting,
            ),
        },
        Progress::Resumed(Guarded::Acting, event) => match event.into_todos() {
            Err(detail) => Step::Done(Reply::error(prefixed("Query error: ", &detail))),
            Ok(todos) => Step::Done(
                Reply::success(
                    None,
                    Payload::TodosInRange {
                        user_id,
                        from: query.start_date.clone(),
                        to: query.end_date.clone(),
                        todos,
                    },
                ),
            ),
        },
    }
}

/// Deletes a user and the user's todos, all or nothing.
pub fn delete_user_with_todos_handler(id: u64, at: Progress<Purge>) -> (step: Step<Purge>)
    ensures
        step@ == orchestrator::delete_user(id as int, at@),
{
    match at {
        Progress::Start => Step::Run(Command::Begin, Purge::Opening),
        Progress::Resumed(Purge::Opening, event) => match event.into_ready() {
            Err(detail) => Step::Done(Reply::error(detail)),
            Ok(_) => Step::Run(Command::DeleteTodosByUser { user_id: id }, Purge::DeletingTodos),
        },
        Progress::Resumed(Purge::DeletingTodos, event) => match event.into_written() {
            Err(detail) => Step::Done(Reply::bare(INTERNAL_SERVER_ERROR, detail)),
            Ok(_) => Step::Run(Command::DeleteUser { id }, Purge::DeletingUser),
        },
        Progress::Resumed(Purge::DeletingUser, event) => match event.into_written() {
            Err(detail) => Step::Done(Reply::bare(INTERNAL_SERVER_ERROR, detail)),
            Ok(written) => if written.rows_affected == 0 {
                Step::Done(Reply::bare(NOT_FOUND, String::from_str("User not found")))
            } else {
                Step::Run(Command::Commit, Purge::Committing)
            },
        },
        Progress::Resumed(Purge::Committing, event) => match event.into_ready() {
            Err(detail) => Step::Done(Reply::error(detail)),
            Ok(_) => Step::Done(
                Reply::success(Some(String::from_str("User and todos deleted")), Payload::Nothing),
            ),
        },
    }
}

/// Deletes one todo of a user.
pub fn delete_todo_for_user_handler(user_id: u64, todoid: u64, at: Progress<Guarded>) -> (step: Step<
    Guarded,
>)
    ensures
        step@ == orchestrator::delete_todo(user_id as int, todoid as int, at@),
{
    match at {
        Progress::Start => Step::Run(Command::UserExists { id: user_id }, Guarded::Checking),
        Progress::Resumed(Guarded::Checking, event) => match event.into_found() {
            Err(detail) => Step::Done(Reply::error(prefixed("DB error: ", &detail))),
            Ok(false) => Step::Done(user_not_found()),
            Ok(true) => Step::Run(Command::DeleteTodo { user_id, todoid }, Guarded::Acting),
        },
        Progress::Resumed(Guarded::Acting, event) => match event.into_written() {
            Err(detail) => Step::Done(Reply::error(prefixed("Delete error: ", &detail))),
            Ok(written) => if written.rows_affected == 0 {
                Step::Done(Reply::fail(NOT_FOUND, todo_not_found_message(user_id, todoid)))
            } else {
                Step::Done(
                    Reply::success(Some(todo_deleted_message(user_id, todoid)), Payload::Nothing),
                )
            },
        },
    }
}

fn fields_of(user: &UsersModel) -> (fields: CreateUsersSchema)
    ensures
        fields@ == crate::schema::UserFieldsView::of(user@),
{
    CreateUsersSchema {
        fname: user.fname.clone(),
        lname: user.lname.clone(),
        username: user.username.clone(),
        userpassword: user.userpassword.clone(),
    }
}

/// Updates the fields of a user that the patch names.
pub fn update_user_handler(id: u64, body: &UpdateUsersSchema, at: Progress<Holding>) -> (step: Step<
    Holding,
>)
    ensures
        step@ == orchestrator::update_user(id as int, body@, at@),
{
    match at {
        Progress::Start => if body.is_empty() {
            Step::Done(
                Reply::fail(
                    BAD_REQUEST,
                    String::from_str("At least one field must be provided for update"),
                ),
            )
        } else {
            Step::Run(Command::FindUser { id }, Holding::Fetching)
        },
        Progress::Resumed(Holding::Fetching, event) => match event.into_user() {
            Err(detail) => Step::Done(Reply::error(prefixed("DB error: ", &detail))),
            Ok(None) => Step::Done(user_not_found()),
            Ok(Some(user)) => {
                let merged = body.apply(user);
                Step::Run(
                    Command::UpdateUser { id, user: fields_of(&merged) },
                    Holding::With(merged),
                )
            },
        },
        Progress::Resumed(Holding::With(user), event) => match event.into_written() {
            Err(detail) => Step::Done(Reply::error(prefixed("Update error: ", &detail))),
            Ok(written) => if written.rows_affected == 0 {
                Step::Done(user_not_found())
            } else {
                Step::Done(
                    Reply::success(
                        Some(String::from_str("User updated successfully")),
                        Payload::User(to_users_response(&user)),
                    ),
                )
            },
        },
    }
}

fn update_todos_from(user_id: u64, todos: &Vec<UpdateTodoSchema>, index: usize) -> (step: Step<Editing>)
    ensures
        step@ == orchestrator::update_todos_from(user_id as int, todos.deep_view(), index as int),
{
    if index < todos.len() {
        let todo = &todos[index];
        Step::Run(
            Command::UpdateTodo { user_id, todoid: todo.todoid, todoname: todo.todoname.clone() },
            Editing::Updating { index, todoid: todo.todoid },
        )
    } else {
        Step::Done(
            Reply::success(
                Some(String::from_str("Todos updated successfully")),
                Payload::UserId(user_id),
            ),
        )
    }
}

/// Updates the texts of todos of a user.
pub fn update_todos_for_user_handler(
    user_id: u64,
    todos: &Vec<UpdateTodoSchema>,
    at: Progress<Editing>,
) -> (step: Step<Editing>)
    ensures
        step@ == orchestrator::update_todos(user_id as int, todos.deep_view(), at@),
{
    match at {
        Progress::Start => Step::Run(Command::UserExists { id: user_id }, Editing::Checking),
        Progress::Resumed(Editing::Checking, event) => match event.into_found() {
            Err(detail) => Step::Done(Reply::error(prefixed("DB error: ", &detail))),
            Ok(false) => Step::Done(user_not_found()),
            Ok(true) => update_todos_from(user_id, todos, 0),
        },
        Progress::Resumed(Editing::Updating { index, todoid }, event) => match event.into_written() {
            Err(detail) => Step::Done(Reply::error(prefixed("Update error: ", &detail))),
            Ok(written) => if written.rows_affected == 0 {
                Step::Done(Reply::fail(NOT_FOUND, todo_missing_message(user_id, todoid)))
            } else if index < todos.len() {
                update_todos_from(user_id, todos, index + 1)
            } else {
                update_todos_from(user_id, todos, index)
            },
        },
    }
}

} // verus!

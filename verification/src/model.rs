//! The rows of the two tables, and the shapes in which they are sent out.

use vstd::prelude::*;

verus! {

/// A point in time: seconds since the Unix epoch, and the nanoseconds within
/// that second.
#[derive(Clone, Copy, Debug, PartialEq, Eq, Structural)]
pub struct Timestamp {
    pub secs: i64,
    pub nanos: u32,
}

/// What a user row holds, as mathematics: the view of [`UsersModel`] and of
/// [`UsersModelResponse`].
pub struct UserView {
    pub id: int,
    pub fname: Seq<char>,
    pub lname: Seq<char>,
    pub username: Seq<char>,
    pub userpassword: Seq<char>,
}

/// What a todo row holds, as mathematics: the view of [`TodosModel`].
pub struct TodoView {
    pub todoid: int,
    pub user_id: int,
    pub todoname: Seq<char>,
    pub created_at: Option<Timestamp>,
}

/// A row of `users`.
#[derive(Debug, PartialEq, Eq)]
pub struct UsersModel {
    /// Assigned by storage, and never changed.
    pub id: i32,
    pub fname: String,
    pub lname: String,
    pub username: String,
    /// The password as the caller gave it. Nothing here hashes it, and it is
    /// sent out with the user: a defect of the design that this crate keeps
    /// and does not mend.
    pub userpassword: String,
}

impl View for UsersModel {
    type V = UserView;

    open spec fn view(&self) -> UserView {
        UserView {
            id: self.id as int,
            fname: self.fname@,
            lname: self.lname@,
            username: self.username@,
            userpassword: self.userpassword@,
        }
    }
}

impl DeepView for UsersModel {
    type V = UserView;

    open spec fn deep_view(&self) -> UserView {
        self@
    }
}

impl Clone for UsersModel {
    fn clone(&self) -> (copy: Self)
        ensures
            copy == *self,
    {
        UsersModel {
            id: self.id,
            fname: self.fname.clone(),
            lname: self.lname.clone(),
            username: self.username.clone(),
            userpassword: self.userpassword.clone(),
        }
    }
}

/// A row of `todolist`.
#[derive(Debug, PartialEq, Eq)]
pub struct TodosModel {
    /// Assigned by storage.
    pub todoid: i32,
    /// The user that the todo belongs to.
    pub user_id: i32,
    pub todoname: String,
    /// Assigned by storage when the todo is inserted, and never changed.
    pub created_at: Option<Timestamp>,
}

impl View for TodosModel {
    type V = TodoView;

    open spec fn view(&self) -> TodoView {
        TodoView {
            todoid: self.todoid as int,
            user_id: self.user_id as int,
            todoname: self.todoname@,
            created_at: self.created_at,
        }
    }
}

impl DeepView for TodosModel {
    type V = TodoView;

    open spec fn deep_view(&self) -> TodoView {
        self@
    }
}

impl Clone for TodosModel {
    fn clone(&self) -> (copy: Self)
        ensures
            copy == *self,
    {
        TodosModel {
            todoid: self.todoid,
            user_id: self.user_id,
            todoname: self.todoname.clone(),
            created_at: self.created_at,
        }
    }
}

/// A user as it is sent out.
#[derive(Debug, PartialEq, Eq)]
pub struct UsersModelResponse {
    pub id: i32,
    pub fname: String,
    pub lname: String,
    pub username: String,
    pub userpassword: String,
}

impl View for UsersModelResponse {
    type V = UserView;

    open spec fn view(&self) -> UserView {
        UserView {
            id: self.id as int,
            fname: self.fname@,
            lname: self.lname@,
            username: self.username@,
            userpassword: self.userpassword@,
        }
    }
}

impl DeepView for UsersModelResponse {
    type V = UserView;

    open spec fn deep_view(&self) -> UserView {
        self@
    }
}

/// A todo as it is sent out, with its creation time.
#[derive(Debug, PartialEq, Eq)]
pub struct TodosModelResponse {
    pub todoid: i64,
    pub todoname: String,
    pub created_at: Option<Timestamp>,
}

/// A todo as it is sent out, without its creation time.
#[derive(Debug, PartialEq, Eq)]
pub struct TodoModelResponse {
    pub todoid: i32,
    pub todoname: String,
}

} // verus!

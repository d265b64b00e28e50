//! The reply to a request: a status code and the members of the body.

use vstd::prelude::*;
use crate::model::{TodoView, TodosModel, UserView, UsersModelResponse};

verus! {

/// The code of a reply that reports success.
pub const OK: u16 = 200;

/// The code of a reply to a request that asks for nothing.
pub const BAD_REQUEST: u16 = 400;

/// The code of a reply about a user or a todo that is not there.
pub const NOT_FOUND: u16 = 404;

/// The code of a reply about a failure of storage.
pub const INTERNAL_SERVER_ERROR: u16 = 500;

/// The `status` member of a body.
#[derive(Clone, Copy, Debug, PartialEq, Eq, Structural)]
pub enum Status {
    /// `"ok"`: the service is up.
    Okay,
    /// `"success"`.
    Success,
    /// `"fail"`: the request cannot be served as it stands.
    Fail,
    /// `"error"`: storage failed.
    Error,
}

impl Status {
    /// The word that stands for the status in a body.
    pub open spec fn label_text(self) -> Seq<char> {
        match self {
            Status::Okay => "ok"@,
            Status::Success => "success"@,
            Status::Fail => "fail"@,
            Status::Error => "error"@,
        }
    }

    /// The word that stands for the status in a body.
    pub fn label(&self) -> (word: &'static str)
        ensures
            word@ == self.label_text(),
    {
        match self {
            Status::Okay => "ok",
            Status::Success => "success",
            Status::Fail => "fail",
            Status::Error => "error",
        }
    }
}

/// Why a request was not served.
#[derive(Clone, Copy, Debug, PartialEq, Eq, Structural)]
pub enum Failure {
    /// A user or a todo is not there, or the todo is not this user's.
    NotFound,
    /// The request asks for nothing.
    InvalidInput,
    /// Storage failed.
    StorageError,
}

/// What a body holds besides `status` and `message`.
#[derive(Debug, PartialEq, Eq)]
pub enum Payload {
    /// Nothing more.
    Nothing,
    /// `user_id`: the id of the user that the request was about.
    UserId(u64),
    /// `data`: one user.
    User(UsersModelResponse),
    /// `data`: one user under `user` and that user's todos under `todos`.
    UserWithTodos { user: UsersModelResponse, todos: Vec<TodosModel> },
    /// `data`: all users under `users`.
    Users(Vec<UsersModelResponse>),
    /// `user_id`, the bounds under `from` and `to`, and the todos found
    /// under `todos`.
    TodosInRange { user_id: u64, from: String, to: String, todos: Vec<TodosModel> },
}

/// A payload, as mathematics.
pub enum PayloadView {
    Nothing,
    UserId(int),
    User(UserView),
    UserWithTodos { user: UserView, todos: Seq<TodoView> },
    Users(Seq<UserView>),
    TodosInRange { user_id: int, from: Seq<char>, to: Seq<char>, todos: Seq<TodoView> },
}

impl View for Payload {
    type V = PayloadView;

    open spec fn view(&self) -> PayloadView {
        match self {
            Payload::Nothing => PayloadView::Nothing,
            Payload::UserId(id) => PayloadView::UserId(*id as int),
            Payload::User(user) => PayloadView::User(user@),
            Payload::UserWithTodos { user, todos } => PayloadView::UserWithTodos {
                user: user@,
                todos: todos.deep_view(),
            },
            Payload::Users(users) => PayloadView::Users(users.deep_view()),
            Payload::TodosInRange { user_id, from, to, todos } => PayloadView::TodosInRange {
                user_id: *user_id as int,
                from: from@,
                to: to@,
                todos: todos.deep_view(),
            },
        }
    }
}

/// The reply to a request.
#[derive(Debug, PartialEq, Eq)]
pub struct Reply {
    /// The status code.
    pub code: u16,
    /// The `status` member of the body, if it has one.
    pub status: Option<Status>,
    /// The `message` member of the body, if it has one.
    pub message: Option<String>,
    /// The other members of the body.
    pub data: Payload,
}

/// A reply, as mathematics.
pub struct ReplyView {
    pub code: u16,
    pub status: Option<Status>,
    pub message: Option<Seq<char>>,
    pub data: PayloadView,
}

impl View for Reply {
    type V = ReplyView;

    open spec fn view(&self) -> ReplyView {
        ReplyView {
            code: self.code,
            status: self.status,
            message: self.message.deep_view(),
            data: self.data@,
        }
    }
}

impl ReplyView {
    /// The request was served.
    pub open spec fn success(message: Option<Seq<char>>, data: PayloadView) -> ReplyView {
        ReplyView { code: OK, status: Some(Status::Success), message, data }
    }

    /// The request cannot be served as it stands; `code` says why.
    pub open spec fn fail(code: u16, message: Seq<char>) -> ReplyView {
        ReplyView {
            code,
            status: Some(Status::Fail),
            message: Some(message),
            data: PayloadView::Nothing,
        }
    }

    /// Storage failed.
    pub open spec fn error(message: Seq<char>) -> ReplyView {
        ReplyView {
            code: INTERNAL_SERVER_ERROR,
            status: Some(Status::Error),
            message: Some(message),
            data: PayloadView::Nothing,
        }
    }

    /// A reply whose body is a message and nothing else.
    pub open spec fn bare(code: u16, message: Seq<char>) -> ReplyView {
        ReplyView { code, status: None, message: Some(message), data: PayloadView::Nothing }
    }

    /// Why the request was not served, or `None` if it was.
    pub open spec fn failure(self) -> Option<Failure> {
        if self.code == NOT_FOUND {
            Some(Failure::NotFound)
        } else if self.code == BAD_REQUEST {
            Some(Failure::InvalidInput)
        } else if self.code == INTERNAL_SERVER_ERROR {
            Some(Failure::StorageError)
        } else {
            None
        }
    }
}

impl Reply {
    /// The request was served.
    pub fn success(message: Option<String>, data: Payload) -> (reply: Reply)
        ensures
            reply@ == ReplyView::success(message.deep_view(), data@),
    {
        Reply { code: OK, status: Some(Status::Success), message, data }
    }

    /// The request cannot be served as it stands; `code` says why.
    pub fn fail(code: u16, message: String) -> (reply: Reply)
        ensures
            reply@ == ReplyView::fail(code, message@),
    {
        Reply { code, status: Some(Status::Fail), message: Some(message), data: Payload::Nothing }
    }

    /// Storage failed.
    pub fn error(message: String) -> (reply: Reply)
        ensures
            reply@ == ReplyView::error(message@),
    {
        Reply {
            code: INTERNAL_SERVER_ERROR,
            status: Some(Status::Error),
            message: Some(message),
            data: Payload::Nothing,
        }
    }

    /// A reply whose body is a message and nothing else.
    pub fn bare(code: u16, message: String) -> (reply: Reply)
        ensures
            reply@ == ReplyView::bare(code, message@),
    {
        Reply { code, status: None, message: Some(message), data: Payload::Nothing }
    }

    /// Why the request was not served, or `None` if it was.
    pub fn failure(&self) -> (failure: Option<Failure>)
        ensures
            failure == self@.failure(),
    {
        if self.code == NOT_FOUND {
            Some(Failure::NotFound)
        } else if self.code == BAD_REQUEST {
            Some(Failure::InvalidInput)
        } else if self.code == INTERNAL_SERVER_ERROR {
            Some(Failure::StorageError)
        } else {
            None
        }
    }
}

} // verus!

//! The payloads that requests carry, already parsed.

use vstd::prelude::*;
use crate::model::{UserView, UsersModel};

verus! {

/// A filter on the user id.
#[derive(Debug, Default, PartialEq, Eq)]
pub struct FilterOptions {
    pub id: Option<usize>,
}

/// A filter on any field of a user.
#[derive(Debug, Default, PartialEq, Eq)]
pub struct FilterOptionsAll {
    pub id: Option<usize>,
    pub fname: Option<String>,
    pub lname: Option<String>,
    pub username: Option<String>,
    pub userpassword: Option<String>,
}

/// The four fields of a user that a caller chooses.
pub struct UserFieldsView {
    pub fname: Seq<char>,
    pub lname: Seq<char>,
    pub username: Seq<char>,
    pub userpassword: Seq<char>,
}

impl UserFieldsView {
    /// The fields of a stored user.
    pub open spec fn of(user: UserView) -> UserFieldsView {
        UserFieldsView {
            fname: user.fname,
            lname: user.lname,
            username: user.username,
            userpassword: user.userpassword,
        }
    }

    /// The user that has these fields under the id `id`.
    pub open spec fn with_id(self, id: int) -> UserView {
        UserView {
            id,
            fname: self.fname,
            lname: self.lname,
            username: self.username,
            userpassword: self.userpassword,
        }
    }
}

/// A partial update of a user, as mathematics.
pub struct UserPatchView {
    pub fname: Option<Seq<char>>,
    pub lname: Option<Seq<char>>,
    pub username: Option<Seq<char>>,
    pub userpassword: Option<Seq<char>>,
}

impl UserPatchView {
    /// No field is present.
    pub open spec fn is_empty(self) -> bool {
        self.fname is None && self.lname is None && self.username is None
            && self.userpassword is None
    }

    /// `user` with every field that the patch holds written over it. The id
    /// and the fields that the patch leaves out stay as they are.
    pub open spec fn apply(self, user: UserView) -> UserView {
        UserView {
            id: user.id,
            fname: if let Some(fname) = self.fname { fname } else { user.fname },
            lname: if let Some(lname) = self.lname { lname } else { user.lname },
            username: if let Some(username) = self.username { username } else { user.username },
            userpassword: if let Some(userpassword) = self.userpassword {
                userpassword
            } else {
                user.userpassword
            },
        }
    }
}

/// A partial update of a user: a field that is `None` is left as it is.
#[derive(Debug, PartialEq, Eq)]
pub struct UpdateUsersSchema {
    pub fname: Option<String>,
    pub lname: Option<String>,
    pub username: Option<String>,
    pub userpassword: Option<String>,
}

impl View for UpdateUsersSchema {
    type V = UserPatchView;

    open spec fn view(&self) -> UserPatchView {
        UserPatchView {
            fname: self.fname.deep_view(),
            lname: self.lname.deep_view(),
            username: self.username.deep_view(),
            userpassword: self.userpassword.deep_view(),
        }
    }
}

impl UpdateUsersSchema {
    /// Whether the patch names no field at all.
    pub fn is_empty(&self) -> (empty: bool)
        ensures
            empty == self@.is_empty(),
    {
        self.fname.is_none() && self.lname.is_none() && self.username.is_none()
            && self.userpassword.is_none()
    }

    /// Writes the fields that the patch holds over those of `user`.
    pub fn apply(&self, user: UsersModel) -> (merged: UsersModel)
        ensures
            merged@ == self@.apply(user@),
    {
        let mut merged = user;
        if let Some(fname) = &self.fname {
            merged.fname = fname.clone();
        }
        if let Some(lname) = &self.lname {
            merged.lname = lname.clone();
        }
        if let Some(username) = &self.username {
            merged.username = username.clone();
        }
        if let Some(userpassword) = &self.userpassword {
            merged.userpassword = userpassword.clone();
        }
        merged
    }
}

/// A new user together with the first todos.
#[derive(Debug, PartialEq, Eq)]
pub struct CreateUserWithTodosSchema {
    pub fname: String,
    pub lname: String,
    pub username: String,
    pub userpassword: String,
    pub todos: Vec<CreateTodoSchema>,
}

/// A new user.
#[derive(Debug, PartialEq, Eq)]
pub struct CreateUsersSchema {
    pub fname: String,
    pub lname: String,
    pub username: String,
    pub userpassword: String,
}

impl View for CreateUsersSchema {
    type V = UserFieldsView;

    open spec fn view(&self) -> UserFieldsView {
        UserFieldsView {
            fname: self.fname@,
            lname: self.lname@,
            username: self.username@,
            userpassword: self.userpassword@,
        }
    }
}

impl Clone for CreateUsersSchema {
    fn clone(&self) -> (copy: Self)
        ensures
            copy == *self,
    {
        CreateUsersSchema {
            fname: self.fname.clone(),
            lname: self.lname.clone(),
            username: self.username.clone(),
            userpassword: self.userpassword.clone(),
        }
    }
}

/// A new todo: its text.
#[derive(Debug, PartialEq, Eq)]
pub struct CreateTodoSchema {
    pub todoname: String,
}

impl View for CreateTodoSchema {
    type V = Seq<char>;

    open spec fn view(&self) -> Seq<char> {
        self.todoname@
    }
}

impl DeepView for CreateTodoSchema {
    type V = Seq<char>;

    open spec fn deep_view(&self) -> Seq<char> {
        self@
    }
}

/// A todo as it is sent out: its text.
#[derive(Debug, PartialEq, Eq)]
pub struct TodoModelResponse {
    pub todoname: String,
}

/// The two bounds of a query by creation time. Both are passed to storage as
/// they came: storage alone reads them.
#[derive(Debug, PartialEq, Eq)]
pub struct DateRangeQuery {
    pub start_date: String,
    pub end_date: String,
}

/// The bounds of a query by creation time, as mathematics.
pub struct DateRangeView {
    pub start_date: Seq<char>,
    pub end_date: Seq<char>,
}

impl View for DateRangeQuery {
    type V = DateRangeView;

    open spec fn view(&self) -> DateRangeView {
        DateRangeView { start_date: self.start_date@, end_date: self.end_date@ }
    }
}

/// A new text for one todo.
#[derive(Debug, PartialEq, Eq)]
pub struct UpdateTodoSchema {
    pub todoid: u64,
    pub todoname: String,
}

/// A new text for one todo, as mathematics.
pub struct TodoEditView {
    pub todoid: int,
    pub todoname: Seq<char>,
}

impl View for UpdateTodoSchema {
    type V = TodoEditView;

    open spec fn view(&self) -> TodoEditView {
        TodoEditView { todoid: self.todoid as int, todoname: self.todoname@ }
    }
}

impl DeepView for UpdateTodoSchema {
    type V = TodoEditView;

    open spec fn deep_view(&self) -> TodoEditView {
        self@
    }
}

/// The pair that names one todo of one user.
#[derive(Debug, PartialEq, Eq)]
pub struct DeleteTodoSchema {
    pub user_id: u64,
    pub todoid: u64,
}

} // verus!

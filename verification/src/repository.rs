//! The commands that a handler may ask storage to run, the statement that
//! stands for each, and what storage may answer.
//!
//! A statement's text is fixed by the kind of the command. Whatever a caller
//! supplied travels in the parameters, never in the text.

use vstd::prelude::*;
use crate::model::{TodoView, TodosModel, UserView, UsersModel};
use crate::schema::{CreateUsersSchema, UserFieldsView};

verus! {

/// A value bound to one placeholder of a statement.
#[derive(Debug, PartialEq, Eq)]
pub enum Param {
    Number(u64),
    Text(String),
}

/// A bound value, as mathematics.
pub enum ParamView {
    Number(int),
    Text(Seq<char>),
}

impl View for Param {
    type V = ParamView;

    open spec fn view(&self) -> ParamView {
        match self {
            Param::Number(n) => ParamView::Number(*n as int),
            Param::Text(text) => ParamView::Text(text@),
        }
    }
}

impl DeepView for Param {
    type V = ParamView;

    open spec fn deep_view(&self) -> ParamView {
        self@
    }
}

/// A parameterised statement: its text, with one `?` for each parameter, and
/// the parameters in the order of their placeholders.
#[derive(Debug, PartialEq, Eq)]
pub struct Statement {
    pub sql: &'static str,
    pub params: Vec<Param>,
}

/// One thing that storage is asked to do.
#[derive(Debug, PartialEq, Eq)]
pub enum Command {
    /// Open a transaction. What follows runs inside it, until `Commit` or
    /// until the handler is done: a transaction still open then is rolled
    /// back.
    Begin,
    /// Make the open transaction permanent.
    Commit,
    /// Is there a user with this id?
    UserExists { id: u64 },
    /// The user with this id.
    FindUser { id: u64 },
    /// Every user.
    ListUsers,
    /// A new user; storage assigns the id.
    InsertUser { user: CreateUsersSchema },
    /// New values for the four fields of the user with this id.
    UpdateUser { id: u64, user: CreateUsersSchema },
    /// Remove the user with this id.
    DeleteUser { id: u64 },
    /// The todos of one user.
    FindTodosByUser { user_id: u64 },
    /// The todos of one user that were created between the two bounds, both
    /// included.
    FindTodosByUserInRange { user_id: u64, start: String, end: String },
    /// A new todo of one user; storage assigns the id and the creation time.
    InsertTodo { user_id: u64, todoname: String },
    /// A new text for the todo with this id, if it belongs to this user.
    UpdateTodo { user_id: u64, todoid: u64, todoname: String },
    /// Remove the todo with this id, if it belongs to this user.
    DeleteTodo { user_id: u64, todoid: u64 },
    /// Remove every todo of one user.
    DeleteTodosByUser { user_id: u64 },
}

/// A command, as mathematics.
pub enum CommandView {
    Begin,
    Commit,
    UserExists { id: int },
    FindUser { id: int },
    ListUsers,
    InsertUser { user: UserFieldsView },
    UpdateUser { id: int, user: UserFieldsView },
    DeleteUser { id: int },
    FindTodosByUser { user_id: int },
    FindTodosByUserInRange { user_id: int, start: Seq<char>, end: Seq<char> },
    InsertTodo { user_id: int, todoname: Seq<char> },
    UpdateTodo { user_id: int, todoid: int, todoname: Seq<char> },
    DeleteTodo { user_id: int, todoid: int },
    DeleteTodosByUser { user_id: int },
}

impl View for Command {
    type V = CommandView;

    open spec fn view(&self) -> CommandView {
        match self {
            Command::Begin => CommandView::Begin,
            Command::Commit => CommandView::Commit,
            Command::UserExists { id } => CommandView::UserExists { id: *id as int },
            Command::FindUser { id } => CommandView::FindUser { id: *id as int },
            Command::ListUsers => CommandView::ListUsers,
            Command::InsertUser { user } => CommandView::InsertUser { user: user@ },
            Command::UpdateUser { id, user } => CommandView::UpdateUser {
                id: *id as int,
                user: user@,
            },
            Command::DeleteUser { id } => CommandView::DeleteUser { id: *id as int },
            Command::FindTodosByUser { user_id } => CommandView::FindTodosByUser {
                user_id: *user_id as int,
            },
            Command::FindTodosByUserInRange { user_id, start, end } => {
                CommandView::FindTodosByUserInRange {
                    user_id: *user_id as int,
                    start: start@,
                    end: end@,
                }
            },
            Command::InsertTodo { user_id, todoname } => CommandView::InsertTodo {
                user_id: *user_id as int,
                todoname: todoname@,
            },
            Command::UpdateTodo { user_id, todoid, todoname } => CommandView::UpdateTodo {
                user_id: *user_id as int,
                todoid: *todoid as int,
                todoname: todoname@,
            },
            Command::DeleteTodo { user_id, todoid } => CommandView::DeleteTodo {
                user_id: *user_id as int,
                todoid: *todoid as int,
            },
            Command::DeleteTodosByUser { user_id } => CommandView::DeleteTodosByUser {
                user_id: *user_id as int,
            },
        }
    }
}

impl CommandView {
    /// The text of the statement that stands for the command. `Begin` and
    /// `Commit` are no statements and have none.
    pub open spec fn sql(self) -> Option<Seq<char>> {
        match self {
            CommandView::Begin => None,
            CommandView::Commit => None,
            CommandView::UserExists { .. } => Some("SELECT id FROM users WHERE id = ?"@),
            CommandView::FindUser { .. } => Some("SELECT * FROM users WHERE id = ?"@),
            CommandView::ListUsers => Some("SELECT * FROM users"@),
            CommandView::InsertUser { .. } => Some(
                "INSERT INTO users (fname, lname, username, userpassword) VALUES (?, ?, ?, ?)"@,
            ),
            CommandView::UpdateUser { .. } => Some(
                "UPDATE users SET fname = ?, lname = ?, username = ?, userpassword = ? WHERE id = ?"@,
            ),
            CommandView::DeleteUser { .. } => Some("DELETE FROM users WHERE id = ?"@),
            CommandView::FindTodosByUser { .. } => Some(
                "SELECT * FROM todolist WHERE user_id = ?"@,
            ),
            CommandView::FindTodosByUserInRange { .. } => Some(
                "SELECT * FROM todolist WHERE user_id = ? AND created_at BETWEEN ? AND ?"@,
            ),
            CommandView::InsertTodo { .. } => Some(
                "INSERT INTO todolist (user_id, todoname) VALUES (?, ?)"@,
            ),
            CommandView::UpdateTodo { .. } => Some(
                "UPDATE todolist SET todoname = ? WHERE todoid = ? AND user_id = ?"@,
            ),
            CommandView::DeleteTodo { .. } => Some(
                "DELETE FROM todolist WHERE todoid = ? AND user_id = ?"@,
            ),
            CommandView::DeleteTodosByUser { .. } => Some(
                "DELETE FROM todolist WHERE user_id = ?"@,
            ),
        }
    }

    /// The values bound to the placeholders of the statement, in their order.
    pub open spec fn params(self) -> Seq<ParamView> {
        match self {
            CommandView::Begin => seq![],
            CommandView::Commit => seq![],
            CommandView::UserExists { id } => seq![ParamView::Number(id)],
            CommandView::FindUser { id } => seq![ParamView::Number(id)],
            CommandView::ListUsers => seq![],
            CommandView::InsertUser { user } => seq![
                ParamView::Text(user.fname),
                ParamView::Text(user.lname),
                ParamView::Text(user.username),
                ParamView::Text(user.userpassword),
            ],
            CommandView::UpdateUser { id, user } => seq![
                ParamView::Text(user.fname),
                ParamView::Text(user.lname),
                ParamView::Text(user.username),
                ParamView::Text(user.userpassword),
                ParamView::Number(id),
            ],
            CommandView::DeleteUser { id } => seq![ParamView::Number(id)],
            CommandView::FindTodosByUser { user_id } => seq![ParamView::Number(user_id)],
            CommandView::FindTodosByUserInRange { user_id, start, end } => seq![
                ParamView::Number(user_id),
                ParamView::Text(start),
                ParamView::Text(end),
            ],
            CommandView::InsertTodo { user_id, todoname } => seq![
                ParamView::Number(user_id),
                ParamView::Text(todoname),
            ],
            CommandView::UpdateTodo { user_id, todoid, todoname } => seq![
                ParamView::Text(todoname),
                ParamView::Number(todoid),
                ParamView::Number(user_id),
            ],
            CommandView::DeleteTodo { user_id, todoid } => seq![
                ParamView::Number(todoid),
                ParamView::Number(user_id),
            ],
            CommandView::DeleteTodosByUser { user_id } => seq![ParamView::Number(user_id)],
        }
    }

    /// Whether two commands are of one kind, whatever values they carry.
    pub open spec fn same_kind(self, other: CommandView) -> bool {
        match self {
            CommandView::Begin => other is Begin,
            CommandView::Commit => other is Commit,
            CommandView::UserExists { .. } => other is UserExists,
            CommandView::FindUser { .. } => other is FindUser,
            CommandView::ListUsers => other is ListUsers,
            CommandView::InsertUser { .. } => other is InsertUser,
            CommandView::UpdateUser { .. } => other is UpdateUser,
            CommandView::DeleteUser { .. } => other is DeleteUser,
            CommandView::FindTodosByUser { .. } => other is FindTodosByUser,
            CommandView::FindTodosByUserInRange { .. } => other is FindTodosByUserInRange,
            CommandView::InsertTodo { .. } => other is InsertTodo,
            CommandView::UpdateTodo { .. } => other is UpdateTodo,
            CommandView::DeleteTodo { .. } => other is DeleteTodo,
            CommandView::DeleteTodosByUser { .. } => other is DeleteTodosByUser,
        }
    }
}

/// The text of a statement depends on the kind of the command alone: no
/// value that a caller supplied can reach it.
pub proof fn statement_text_ignores_values(a: CommandView, b: CommandView)
    requires
        a.same_kind(b),
    ensures
        a.sql() == b.sql(),
{
}

fn text_param(text: &String) -> (param: Param)
    ensures
        param@ == ParamView::Text(text@),
{
    Param::Text(text.clone())
}

fn statement_of(sql: &'static str, params: Vec<Param>) -> (statement: Option<Statement>)
    ensures
        statement matches Some(st) && st.sql@ == sql@ && st.params == params,
{
    Some(Statement { sql, params })
}

impl Command {
    /// The statement that stands for the command, or `None` for `Begin` and
    /// `Commit`, which are no statements.
    pub fn statement(&self) -> (statement: Option<Statement>)
        ensures
            match statement {
                Some(st) => self@.sql() == Some(st.sql@) && st.params.deep_view()
                    == self@.params(),
                None => self@.sql() is None,
            },
    {
        let statement = match self {
            Command::Begin => None,
            Command::Commit => None,
            Command::UserExists { id } => statement_of(
                "SELECT id FROM users WHERE id = ?",
                vec![Param::Number(*id)],
            ),
            Command::FindUser { id } => statement_of(
                "SELECT * FROM users WHERE id = ?",
                vec![Param::Number(*id)],
            ),
            Command::ListUsers => statement_of("SELECT * FROM users", vec![]),
            Command::InsertUser { user } => statement_of(
                "INSERT INTO users (fname, lname, username, userpassword) VALUES (?, ?, ?, ?)",
                vec![
                    text_param(&user.fname),
                    text_param(&user.lname),
                    text_param(&user.username),
                    text_param(&user.userpassword),
                ],
            ),
            Command::UpdateUser { id, user } => statement_of(
                "UPDATE users SET fname = ?, lname = ?, username = ?, userpassword = ? WHERE id = ?",
                vec![
                    text_param(&user.fname),
                    text_param(&user.lname),
                    text_param(&user.username),
                    text_param(&user.userpassword),
                    Param::Number(*id),
                ],
            ),
            Command::DeleteUser { id } => statement_of(
                "DELETE FROM users WHERE id = ?",
                vec![Param::Number(*id)],
            ),
            Command::FindTodosByUser { user_id } => statement_of(
                "SELECT * FROM todolist WHERE user_id = ?",
                vec![Param::Number(*user_id)],
            ),
            Command::FindTodosByUserInRange { user_id, start, end } => statement_of(
                "SELECT * FROM todolist WHERE user_id = ? AND created_at BETWEEN ? AND ?",
                vec![Param::Number(*user_id), text_param(start), text_param(end)],
            ),
            Command::InsertTodo { user_id, todoname } => statement_of(
                "INSERT INTO todolist (user_id, todoname) VALUES (?, ?)",
                vec![Param::Number(*user_id), text_param(todoname)],
            ),
            Command::UpdateTodo { user_id, todoid, todoname } => statement_of(
                "UPDATE todolist SET todoname = ? WHERE todoid = ? AND user_id = ?",
                vec![text_param(todoname), Param::Number(*todoid), Param::Number(*user_id)],
            ),
            Command::DeleteTodo { user_id, todoid } => statement_of(
                "DELETE FROM todolist WHERE todoid = ? AND user_id = ?",
                vec![Param::Number(*todoid), Param::Number(*user_id)],
            ),
            Command::DeleteTodosByUser { user_id } => statement_of(
                "DELETE FROM todolist WHERE user_id = ?",
                vec![Param::Number(*user_id)],
            ),
        };
        proof {
            if statement is Some {
                assert(statement->Some_0.params.deep_view() =~= self@.params());
            }
        }
        statement
    }
}

/// What a statement that writes reports back.
#[derive(Clone, Copy, Debug, PartialEq, Eq)]
pub struct Written {
    /// How many rows the statement matched.
    pub rows_affected: u64,
    /// The id that storage assigned, after an insert.
    pub last_insert_id: u64,
}

/// What a write reports back, as mathematics.
pub struct WrittenView {
    pub rows_affected: int,
    pub last_insert_id: int,
}

impl View for Written {
    type V = WrittenView;

    open spec fn view(&self) -> WrittenView {
        WrittenView {
            rows_affected: self.rows_affected as int,
            last_insert_id: self.last_insert_id as int,
        }
    }
}

/// What storage answered to a command.
#[derive(Debug, PartialEq, Eq)]
pub enum Event {
    /// `Begin` or `Commit` went through.
    Ready,
    /// The answer to `UserExists`.
    Exists(bool),
    /// The answer to `FindUser`.
    User(Option<UsersModel>),
    /// The answer to `ListUsers`.
    Users(Vec<UsersModel>),
    /// The answer to `FindTodosByUser` and to `FindTodosByUserInRange`.
    Todos(Vec<TodosModel>),
    /// The answer to an insert, an update or a delete.
    Written(Written),
    /// The command failed; the text is storage's diagnostic.
    Failed(String),
}

/// An answer of storage, as mathematics.
pub enum EventView {
    Ready,
    Exists(bool),
    User(Option<UserView>),
    Users(Seq<UserView>),
    Todos(Seq<TodoView>),
    Written(WrittenView),
    Failed(Seq<char>),
}

impl View for Event {
    type V = EventView;

    open spec fn view(&self) -> EventView {
        match self {
            Event::Ready => EventView::Ready,
            Event::Exists(exists) => EventView::Exists(*exists),
            Event::User(user) => EventView::User(user.deep_view()),
            Event::Users(users) => EventView::Users(users.deep_view()),
            Event::Todos(todos) => EventView::Todos(todos.deep_view()),
            Event::Written(written) => EventView::Written(written@),
            Event::Failed(detail) => EventView::Failed(detail@),
        }
    }
}

impl EventView {
    /// The diagnostic that goes with an answer which is not the one awaited:
    /// storage's own text if the command failed, and a fixed text if storage
    /// answered something of another kind.
    pub open spec fn complaint(self) -> Seq<char> {
        match self {
            EventView::Failed(detail) => detail,
            _ => "unexpected answer from storage"@,
        }
    }

    /// Read as the answer to `Begin` or `Commit`.
    pub open spec fn ready(self) -> Result<(), Seq<char>> {
        match self {
            EventView::Ready => Ok(()),
            _ => Err(self.complaint()),
        }
    }

    /// Read as the answer to `UserExists`.
    pub open spec fn found(self) -> Result<bool, Seq<char>> {
        match self {
            EventView::Exists(exists) => Ok(exists),
            _ => Err(self.complaint()),
        }
    }

    /// Read as the answer to `FindUser`.
    pub open spec fn user(self) -> Result<Option<UserView>, Seq<char>> {
        match self {
            EventView::User(user) => Ok(user),
            _ => Err(self.complaint()),
        }
    }

    /// Read as the answer to `ListUsers`.
    pub open spec fn users(self) -> Result<Seq<UserView>, Seq<char>> {
        match self {
            EventView::Users(users) => Ok(users),
            _ => Err(self.complaint()),
        }
    }

    /// Read as the answer to a query for todos.
    pub open spec fn todos(self) -> Result<Seq<TodoView>, Seq<char>> {
        match self {
            EventView::Todos(todos) => Ok(todos),
            _ => Err(self.complaint()),
        }
    }

    /// Read as the answer to a write.
    pub open spec fn written(self) -> Result<WrittenView, Seq<char>> {
        match self {
            EventView::Written(written) => Ok(written),
            _ => Err(self.complaint()),
        }
    }
}

impl Event {
    fn into_complaint(self) -> (detail: String)
        ensures
            detail@ == self@.complaint(),
    {
        match self {
            Event::Failed(detail) => detail,
            _ => String::from_str("unexpected answer from storage"),
        }
    }

    /// Reads the event as the answer to `Begin` or `Commit`.
    pub fn into_ready(self) -> (outcome: Result<(), String>)
        ensures
            match outcome {
                Ok(_) => self@.ready() is Ok,
                Err(detail) => self@.ready() == Err::<(), Seq<char>>(detail@),
            },
    {
        match self {
            Event::Ready => Ok(()),
            other => Err(other.into_complaint()),
        }
    }

    /// Reads the event as the answer to `UserExists`.
    pub fn into_found(self) -> (outcome: Result<bool, String>)
        ensures
            match outcome {
                Ok(exists) => self@.found() == Ok::<bool, Seq<char>>(exists),
                Err(detail) => self@.found() == Err::<bool, Seq<char>>(detail@),
            },
    {
        match self {
            Event::Exists(exists) => Ok(exists),
            other => Err(other.into_complaint()),
        }
    }

    /// Reads the event as the answer to `FindUser`.
    pub fn into_user(self) -> (outcome: Result<Option<UsersModel>, String>)
        ensures
            match outcome {
                Ok(user) => self@.user() == Ok::<Option<UserView>, Seq<char>>(user.deep_view()),
                Err(detail) => self@.user() == Err::<Option<UserView>, Seq<char>>(detail@),
            },
    {
        match self {
            Event::User(user) => Ok(user),
            other => Err(other.into_complaint()),
        }
    }

    /// Reads the event as the answer to `ListUsers`.
    pub fn into_users(self) -> (outcome: Result<Vec<UsersModel>, String>)
        ensures
            match outcome {
                Ok(users) => self@.users() == Ok::<Seq<UserView>, Seq<char>>(users.deep_view()),
                Err(detail) => self@.users() == Err::<Seq<UserView>, Seq<char>>(detail@),
            },
    {
        match self {
            Event::Users(users) => Ok(users),
            other => Err(other.into_complaint()),
        }
    }

    /// Reads the event as the answer to a query for todos.
    pub fn into_todos(self) -> (outcome: Result<Vec<TodosModel>, String>)
        ensures
            match outcome {
                Ok(todos) => self@.todos() == Ok::<Seq<TodoView>, Seq<char>>(todos.deep_view()),
                Err(detail) => self@.todos() == Err::<Seq<TodoView>, Seq<char>>(detail@),
            },
    {
        match self {
            Event::Todos(todos) => Ok(todos),
            other => Err(other.into_complaint()),
        }
    }

    /// Reads the event as the answer to a write.
    pub fn into_written(self) -> (outcome: Result<Written, String>)
        ensures
            match outcome {
                Ok(written) => self@.written() == Ok::<WrittenView, Seq<char>>(written@),
                Err(detail) => self@.written() == Err::<WrittenView, Seq<char>>(detail@),
            },
    {
        match self {
            Event::Written(written) => Ok(written),
            other => Err(other.into_complaint()),
        }
    }
}

} // verus!

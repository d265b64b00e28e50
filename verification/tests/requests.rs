use todo_service::flow::{Progress, Step};
use todo_service::handler::{
    create_todos_for_user_handler, create_user_handler, delete_todo_for_user_handler,
    delete_user_with_todos_handler, get_user_with_todos_handler, list_users_handler,
    update_todos_for_user_handler, update_user_handler, user_todos_by_date_handler,
};
use todo_service::model::{Timestamp, TodosModel, UsersModel, UsersModelResponse};
use todo_service::repository::{Command, Event, Written};
use todo_service::response::{Failure, Payload, Reply, Status};
use todo_service::schema::{
    CreateTodoSchema, CreateUsersSchema, DateRangeQuery, UpdateTodoSchema, UpdateUsersSchema,
};

/// Two tables in memory that answer commands as a database with primary
/// keys would. Bounds of a range are read as seconds since the epoch.
struct Tables {
    users: Vec<UsersModel>,
    todos: Vec<TodosModel>,
    next_user: i32,
    next_todo: i32,
    saved: Option<(Vec<UsersModel>, Vec<TodosModel>)>,
    clock: i64,
    log: Vec<Command>,
}

fn matched(n: usize) -> Event {
    Event::Written(Written { rows_affected: n as u64, last_insert_id: 0 })
}

impl Tables {
    fn new() -> Tables {
        Tables {
            users: vec![],
            todos: vec![],
            next_user: 1,
            next_todo: 1,
            saved: None,
            clock: 1_000,
            log: vec![],
        }
    }

    fn answer(&mut self, command: &Command) -> Event {
        match command {
            Command::Begin => {
                self.saved = Some((self.users.clone(), self.todos.clone()));
                Event::Ready
            }
            Command::Commit => {
                self.saved = None;
                Event::Ready
            }
            Command::UserExists { id } => {
                Event::Exists(self.users.iter().any(|u| u.id as u64 == *id))
            }
            Command::FindUser { id } => {
                Event::User(self.users.iter().find(|u| u.id as u64 == *id).cloned())
            }
            Command::ListUsers => Event::Users(self.users.clone()),
            Command::InsertUser { user } => {
                let id = self.next_user;
                self.next_user += 1;
                self.users.push(UsersModel {
                    id,
                    fname: user.fname.clone(),
                    lname: user.lname.clone(),
                    username: user.username.clone(),
                    userpassword: user.userpassword.clone(),
                });
                Event::Written(Written { rows_affected: 1, last_insert_id: id as u64 })
            }
            Command::UpdateUser { id, user } => {
                let mut hits = 0;
                for row in self.users.iter_mut().filter(|u| u.id as u64 == *id) {
                    row.fname = user.fname.clone();
                    row.lname = user.lname.clone();
                    row.username = user.username.clone();
                    row.userpassword = user.userpassword.clone();
                    hits += 1;
                }
                matched(hits)
            }
            Command::DeleteUser { id } => {
                let before = self.users.len();
                self.users.retain(|u| u.id as u64 != *id);
                matched(before - self.users.len())
            }
            Command::FindTodosByUser { user_id } => Event::Todos(
                self.todos.iter().filter(|t| t.user_id as u64 == *user_id).cloned().collect(),
            ),
            Command::FindTodosByUserInRange { user_id, start, end } => {
                let start: i64 = start.parse().unwrap();
                let end: i64 = end.parse().unwrap();
                Event::Todos(
                    self.todos
                        .iter()
                        .filter(|t| t.user_id as u64 == *user_id)
                        .filter(|t| {
                            t.created_at.map_or(false, |at| start <= at.secs && at.secs <= end)
                        })
                        .cloned()
                        .collect(),
                )
            }
            Command::InsertTodo { user_id, todoname } => {
                let todoid = self.next_todo;
                self.next_todo += 1;
                self.todos.push(TodosModel {
                    todoid,
                    user_id: *user_id as i32,
                    todoname: todoname.clone(),
                    created_at: Some(Timestamp { secs: self.clock, nanos: 0 }),
                });
                Event::Written(Written { rows_affected: 1, last_insert_id: todoid as u64 })
            }
            Command::UpdateTodo { user_id, todoid, todoname } => {
                let mut hits = 0;
                for row in self
                    .todos
                    .iter_mut()
                    .filter(|t| t.todoid as u64 == *todoid && t.user_id as u64 == *user_id)
                {
                    row.todoname = todoname.clone();
                    hits += 1;
                }
                matched(hits)
            }
            Command::DeleteTodo { user_id, todoid } => {
                let before = self.todos.len();
                self.todos
                    .retain(|t| !(t.todoid as u64 == *todoid && t.user_id as u64 == *user_id));
                matched(before - self.todos.len())
            }
            Command::DeleteTodosByUser { user_id } => {
                let before = self.todos.len();
                self.todos.retain(|t| t.user_id as u64 != *user_id);
                matched(before - self.todos.len())
            }
        }
    }

    fn serve<S>(&mut self, handler: impl Fn(Progress<S>) -> Step<S>) -> Reply {
        self.log.clear();
        let mut at = Progress::Start;
        loop {
            match handler(at) {
                Step::Done(reply) => {
                    if let Some((users, todos)) = self.saved.take() {
                        self.users = users;
                        self.todos = todos;
                    }
                    return reply;
                }
                Step::Run(command, state) => {
                    let event = self.answer(&command);
                    self.log.push(command);
                    at = Progress::Resumed(state, event);
                }
            }
        }
    }

    fn create_user(&mut self, fname: &str, lname: &str) -> u64 {
        let body = fields(fname, lname);
        let reply = self.serve(|at| create_user_handler(&body, at));
        match reply.data {
            Payload::UserId(id) => id,
            other => panic!("no id in {:?}", other),
        }
    }

    fn add_todos(&mut self, user_id: u64, names: &[&str]) -> Reply {
        let todos: Vec<CreateTodoSchema> =
            names.iter().map(|n| CreateTodoSchema { todoname: String::from(*n) }).collect();
        self.serve(|at| create_todos_for_user_handler(user_id, &todos, at))
    }

    fn details(&mut self, id: u64) -> Reply {
        self.serve(|at| get_user_with_todos_handler(id, at))
    }
}

fn fields(fname: &str, lname: &str) -> CreateUsersSchema {
    CreateUsersSchema {
        fname: String::from(fname),
        lname: String::from(lname),
        username: format!("{}.{}", fname, lname),
        userpassword: String::from("pw"),
    }
}

fn sent(id: i32, fname: &str, lname: &str) -> UsersModelResponse {
    UsersModelResponse {
        id,
        fname: String::from(fname),
        lname: String::from(lname),
        username: format!("{}.{}", fname, lname),
        userpassword: String::from("pw"),
    }
}

fn todo(todoid: i32, user_id: i32, name: &str, secs: i64) -> TodosModel {
    TodosModel {
        todoid,
        user_id,
        todoname: String::from(name),
        created_at: Some(Timestamp { secs, nanos: 0 }),
    }
}

fn success(message: Option<&str>, data: Payload) -> Reply {
    Reply { code: 200, status: Some(Status::Success), message: message.map(String::from), data }
}

fn user_not_found() -> Reply {
    Reply {
        code: 404,
        status: Some(Status::Fail),
        message: Some(String::from("User not found")),
        data: Payload::Nothing,
    }
}

fn range(start: i64, end: i64) -> DateRangeQuery {
    DateRangeQuery { start_date: start.to_string(), end_date: end.to_string() }
}

#[test]
fn a_created_user_is_fetched_with_the_fields_that_were_sent() {
    let mut tables = Tables::new();
    tables.create_user("Ada", "Lovelace");
    let id = tables.create_user("Grace", "Hopper");
    assert_eq!(id, 2);
    assert_eq!(
        tables.details(id),
        success(
            None,
            Payload::UserWithTodos { user: sent(2, "Grace", "Hopper"), todos: vec![] }
        )
    );
}

#[test]
fn a_created_user_gets_an_id_that_no_user_had() {
    let mut tables = Tables::new();
    let first = tables.create_user("Ada", "Lovelace");
    let second = tables.create_user("Ada", "Lovelace");
    assert_ne!(first, second);
    assert_eq!(tables.users.len(), 2);
}

#[test]
fn todos_for_a_missing_user_are_refused_and_none_is_created() {
    let mut tables = Tables::new();
    tables.create_user("Ada", "Lovelace");
    let reply = tables.add_todos(7, &["a", "b", "c"]);
    assert_eq!(reply, user_not_found());
    assert_eq!(reply.failure(), Some(Failure::NotFound));
    assert!(tables.todos.is_empty());
    assert_eq!(tables.log, vec![Command::UserExists { id: 7 }]);
}

#[test]
fn todos_for_a_user_are_stored_in_their_order() {
    let mut tables = Tables::new();
    let id = tables.create_user("Ada", "Lovelace");
    let reply = tables.add_todos(id, &["a", "b", "c"]);
    assert_eq!(reply, success(Some("Todos added successfully"), Payload::UserId(1)));
    assert_eq!(
        tables.todos,
        vec![todo(1, 1, "a", 1_000), todo(2, 1, "b", 1_000), todo(3, 1, "c", 1_000)]
    );
    assert_eq!(
        tables.details(id),
        success(
            None,
            Payload::UserWithTodos {
                user: sent(1, "Ada", "Lovelace"),
                todos: vec![todo(1, 1, "a", 1_000), todo(2, 1, "b", 1_000), todo(3, 1, "c", 1_000)],
            }
        )
    );
}

#[test]
fn an_empty_patch_is_refused_and_storage_is_not_asked() {
    let mut tables = Tables::new();
    let id = tables.create_user("Ada", "Lovelace");
    let patch = UpdateUsersSchema { fname: None, lname: None, username: None, userpassword: None };
    let reply = tables.serve(|at| update_user_handler(id, &patch, at));
    assert_eq!(reply.code, 400);
    assert_eq!(reply.failure(), Some(Failure::InvalidInput));
    assert!(tables.log.is_empty());
    assert_eq!(tables.users[0].lname, "Lovelace");
    let reply = tables.serve(|at| update_user_handler(99, &patch, at));
    assert_eq!(reply.failure(), Some(Failure::InvalidInput));
}

#[test]
fn a_patch_of_one_field_changes_that_field_alone() {
    let mut tables = Tables::new();
    tables.create_user("Ada", "Lovelace");
    let id = tables.create_user("Grace", "Hopper");
    let patch = UpdateUsersSchema {
        fname: None,
        lname: Some(String::from("Murray")),
        username: None,
        userpassword: None,
    };
    let merged = UsersModelResponse { lname: String::from("Murray"), ..sent(2, "Grace", "Hopper") };
    let reply = tables.serve(|at| update_user_handler(id, &patch, at));
    assert_eq!(
        reply,
        success(
            Some("User updated successfully"),
            Payload::User(UsersModelResponse {
                lname: String::from("Murray"),
                ..sent(2, "Grace", "Hopper")
            })
        )
    );
    assert_eq!(
        tables.details(id),
        success(None, Payload::UserWithTodos { user: merged, todos: vec![] })
    );
    assert_eq!(
        tables.details(1),
        success(None, Payload::UserWithTodos { user: sent(1, "Ada", "Lovelace"), todos: vec![] })
    );
}

#[test]
fn a_patch_for_a_missing_user_is_not_found() {
    let mut tables = Tables::new();
    let patch = UpdateUsersSchema {
        fname: Some(String::from("x")),
        lname: None,
        username: None,
        userpassword: None,
    };
    let reply = tables.serve(|at| update_user_handler(4, &patch, at));
    assert_eq!(reply, user_not_found());
    assert_eq!(tables.log, vec![Command::FindUser { id: 4 }]);
}

#[test]
fn deleting_a_user_removes_the_user_and_all_the_todos() {
    let mut tables = Tables::new();
    let ada = tables.create_user("Ada", "Lovelace");
    let grace = tables.create_user("Grace", "Hopper");
    tables.add_todos(ada, &["a", "b", "c"]);
    tables.add_todos(grace, &["g"]);
    let reply = tables.serve(|at| delete_user_with_todos_handler(ada, at));
    assert_eq!(reply, success(Some("User and todos deleted"), Payload::Nothing));
    assert_eq!(tables.users.len(), 1);
    assert_eq!(tables.todos, vec![todo(4, 2, "g", 1_000)]);
    assert_eq!(tables.details(ada), user_not_found());
    assert_eq!(
        tables.details(grace),
        success(
            None,
            Payload::UserWithTodos {
                user: sent(2, "Grace", "Hopper"),
                todos: vec![todo(4, 2, "g", 1_000)],
            }
        )
    );
}

#[test]
fn deleting_a_missing_user_removes_no_todo() {
    let mut tables = Tables::new();
    let ada = tables.create_user("Ada", "Lovelace");
    tables.add_todos(ada, &["a"]);
    tables.todos.push(todo(50, 9, "orphan", 5));
    let reply = tables.serve(|at| delete_user_with_todos_handler(9, at));
    assert_eq!(
        reply,
        Reply {
            code: 404,
            status: None,
            message: Some(String::from("User not found")),
            data: Payload::Nothing,
        }
    );
    assert_eq!(reply.failure(), Some(Failure::NotFound));
    assert_eq!(
        tables.log,
        vec![
            Command::Begin,
            Command::DeleteTodosByUser { user_id: 9 },
            Command::DeleteUser { id: 9 },
        ]
    );
    assert_eq!(tables.todos, vec![todo(1, 1, "a", 1_000), todo(50, 9, "orphan", 5)]);
    assert_eq!(tables.users.len(), 1);
}

#[test]
fn a_todo_is_not_deleted_through_another_user() {
    let mut tables = Tables::new();
    let ada = tables.create_user("Ada", "Lovelace");
    let grace = tables.create_user("Grace", "Hopper");
    tables.add_todos(ada, &["a"]);
    let reply = tables.serve(|at| delete_todo_for_user_handler(grace, 1, at));
    assert_eq!(
        reply,
        Reply {
            code: 404,
            status: Some(Status::Fail),
            message: Some(String::from("Todo not found for user_id 2 with todoid 1")),
            data: Payload::Nothing,
        }
    );
    assert_eq!(
        tables.details(ada),
        success(
            None,
            Payload::UserWithTodos {
                user: sent(1, "Ada", "Lovelace"),
                todos: vec![todo(1, 1, "a", 1_000)],
            }
        )
    );
}

#[test]
fn a_todo_is_deleted_through_its_owner() {
    let mut tables = Tables::new();
    let ada = tables.create_user("Ada", "Lovelace");
    tables.add_todos(ada, &["a", "b"]);
    let reply = tables.serve(|at| delete_todo_for_user_handler(ada, 1, at));
    assert_eq!(
        reply,
        success(Some("Todo with id 1 deleted successfully for user 1"), Payload::Nothing)
    );
    assert_eq!(tables.todos, vec![todo(2, 1, "b", 1_000)]);
}

#[test]
fn a_todo_of_a_missing_user_is_not_found_for_the_user() {
    let mut tables = Tables::new();
    tables.todos.push(todo(1, 5, "orphan", 5));
    let reply = tables.serve(|at| delete_todo_for_user_handler(5, 1, at));
    assert_eq!(reply, user_not_found());
    assert_eq!(tables.todos.len(), 1);
}

#[test]
fn a_range_that_is_the_creation_time_gives_the_todo() {
    let mut tables = Tables::new();
    let ada = tables.create_user("Ada", "Lovelace");
    tables.clock = 5_000;
    tables.add_todos(ada, &["a"]);
    let query = range(5_000, 5_000);
    let reply = tables.serve(|at| user_todos_by_date_handler(ada, &query, at));
    assert_eq!(
        reply,
        success(
            None,
            Payload::TodosInRange {
                user_id: 1,
                from: String::from("5000"),
                to: String::from("5000"),
                todos: vec![todo(1, 1, "a", 5_000)],
            }
        )
    );
}

#[test]
fn a_range_that_leaves_the_creation_time_out_gives_nothing() {
    let mut tables = Tables::new();
    let ada = tables.create_user("Ada", "Lovelace");
    tables.clock = 5_000;
    tables.add_todos(ada, &["a"]);
    let query = range(5_001, 9_000);
    let reply = tables.serve(|at| user_todos_by_date_handler(ada, &query, at));
    assert_eq!(
        reply,
        success(
            None,
            Payload::TodosInRange {
                user_id: 1,
                from: String::from("5001"),
                to: String::from("9000"),
                todos: vec![],
            }
        )
    );
}

#[test]
fn a_range_for_a_missing_user_is_not_found() {
    let mut tables = Tables::new();
    let query = range(0, 10);
    let reply = tables.serve(|at| user_todos_by_date_handler(3, &query, at));
    assert_eq!(reply, user_not_found());
    assert_eq!(tables.log, vec![Command::UserExists { id: 3 }]);
}

#[test]
fn the_list_holds_every_created_user() {
    let mut tables = Tables::new();
    let names = ["a", "b", "c", "d", "e"];
    for name in names {
        tables.create_user(name, "x");
    }
    let reply = tables.serve(|at| list_users_handler(at));
    let users = match reply.data {
        Payload::Users(users) => users,
        other => panic!("no users in {:?}", other),
    };
    assert_eq!(users.len(), 5);
    for (k, name) in names.iter().enumerate() {
        assert!(users.contains(&sent(k as i32 + 1, name, "x")));
    }
}

#[test]
fn the_list_of_no_users_is_empty() {
    let mut tables = Tables::new();
    let reply = tables.serve(|at| list_users_handler(at));
    assert_eq!(reply, success(None, Payload::Users(vec![])));
}

#[test]
fn edits_before_a_missing_todo_stay_applied() {
    let mut tables = Tables::new();
    let ada = tables.create_user("Ada", "Lovelace");
    let grace = tables.create_user("Grace", "Hopper");
    tables.add_todos(ada, &["a", "b"]);
    tables.add_todos(grace, &["g"]);
    let edits = vec![
        UpdateTodoSchema { todoid: 1, todoname: String::from("A") },
        UpdateTodoSchema { todoid: 3, todoname: String::from("G") },
        UpdateTodoSchema { todoid: 2, todoname: String::from("B") },
    ];
    let reply = tables.serve(|at| update_todos_for_user_handler(ada, &edits, at));
    assert_eq!(
        reply,
        Reply {
            code: 404,
            status: Some(Status::Fail),
            message: Some(String::from("Todo with id 3 not found for user 1")),
            data: Payload::Nothing,
        }
    );
    assert_eq!(
        tables.todos,
        vec![todo(1, 1, "A", 1_000), todo(2, 1, "b", 1_000), todo(3, 2, "g", 1_000)]
    );
}

#[test]
fn all_edits_are_applied_when_every_todo_is_found() {
    let mut tables = Tables::new();
    let ada = tables.create_user("Ada", "Lovelace");
    tables.add_todos(ada, &["a", "b"]);
    let edits = vec![
        UpdateTodoSchema { todoid: 2, todoname: String::from("B") },
        UpdateTodoSchema { todoid: 1, todoname: String::from("A") },
    ];
    let reply = tables.serve(|at| update_todos_for_user_handler(ada, &edits, at));
    assert_eq!(reply, success(Some("Todos updated successfully"), Payload::UserId(1)));
    assert_eq!(tables.todos, vec![todo(1, 1, "A", 1_000), todo(2, 1, "B", 1_000)]);
}

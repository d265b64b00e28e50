use todo_service::model::{Timestamp, TodosModel, UsersModel};
use todo_service::repository::{Command, Event, Param, Statement, Written};
use todo_service::schema::{CreateUsersSchema, UpdateUsersSchema};

fn fields() -> CreateUsersSchema {
    CreateUsersSchema {
        fname: String::from("Ada"),
        lname: String::from("Lovelace"),
        username: String::from("ada"),
        userpassword: String::from("secret"),
    }
}

fn ada(id: i32) -> UsersModel {
    UsersModel {
        id,
        fname: String::from("Ada"),
        lname: String::from("Lovelace"),
        username: String::from("ada"),
        userpassword: String::from("secret"),
    }
}

fn text(s: &str) -> Param {
    Param::Text(String::from(s))
}

fn statement(sql: &'static str, params: Vec<Param>) -> Option<Statement> {
    Some(Statement { sql, params })
}

#[test]
fn begin_and_commit_are_no_statements() {
    assert_eq!(Command::Begin.statement(), None);
    assert_eq!(Command::Commit.statement(), None);
}

#[test]
fn statement_of_user_exists() {
    assert_eq!(
        Command::UserExists { id: 7 }.statement(),
        statement("SELECT id FROM users WHERE id = ?", vec![Param::Number(7)])
    );
}

#[test]
fn statement_of_find_user() {
    assert_eq!(
        Command::FindUser { id: 7 }.statement(),
        statement("SELECT * FROM users WHERE id = ?", vec![Param::Number(7)])
    );
}

#[test]
fn statement_of_list_users() {
    assert_eq!(Command::ListUsers.statement(), statement("SELECT * FROM users", vec![]));
}

#[test]
fn statement_of_insert_user() {
    assert_eq!(
        Command::InsertUser { user: fields() }.statement(),
        statement(
            "INSERT INTO users (fname, lname, username, userpassword) VALUES (?, ?, ?, ?)",
            vec![text("Ada"), text("Lovelace"), text("ada"), text("secret")]
        )
    );
}

#[test]
fn statement_of_update_user() {
    assert_eq!(
        Command::UpdateUser { id: 9, user: fields() }.statement(),
        statement(
            "UPDATE users SET fname = ?, lname = ?, username = ?, userpassword = ? WHERE id = ?",
            vec![text("Ada"), text("Lovelace"), text("ada"), text("secret"), Param::Number(9)]
        )
    );
}

#[test]
fn statement_of_delete_user() {
    assert_eq!(
        Command::DeleteUser { id: 9 }.statement(),
        statement("DELETE FROM users WHERE id = ?", vec![Param::Number(9)])
    );
}

#[test]
fn statement_of_find_todos_by_user() {
    assert_eq!(
        Command::FindTodosByUser { user_id: 2 }.statement(),
        statement("SELECT * FROM todolist WHERE user_id = ?", vec![Param::Number(2)])
    );
}

#[test]
fn statement_of_find_todos_in_range() {
    assert_eq!(
        Command::FindTodosByUserInRange {
            user_id: 2,
            start: String::from("2024-01-01"),
            end: String::from("2024-01-31"),
        }
        .statement(),
        statement(
            "SELECT * FROM todolist WHERE user_id = ? AND created_at BETWEEN ? AND ?",
            vec![Param::Number(2), text("2024-01-01"), text("2024-01-31")]
        )
    );
}

#[test]
fn statement_of_insert_todo() {
    assert_eq!(
        Command::InsertTodo { user_id: 2, todoname: String::from("buy milk") }.statement(),
        statement(
            "INSERT INTO todolist (user_id, todoname) VALUES (?, ?)",
            vec![Param::Number(2), text("buy milk")]
        )
    );
}

#[test]
fn statement_of_update_todo() {
    assert_eq!(
        Command::UpdateTodo { user_id: 2, todoid: 5, todoname: String::from("buy tea") }
            .statement(),
        statement(
            "UPDATE todolist SET todoname = ? WHERE todoid = ? AND user_id = ?",
            vec![text("buy tea"), Param::Number(5), Param::Number(2)]
        )
    );
}

#[test]
fn statement_of_delete_todo() {
    assert_eq!(
        Command::DeleteTodo { user_id: 2, todoid: 5 }.statement(),
        statement(
            "DELETE FROM todolist WHERE todoid = ? AND user_id = ?",
            vec![Param::Number(5), Param::Number(2)]
        )
    );
}

#[test]
fn statement_of_delete_todos_by_user() {
    assert_eq!(
        Command::DeleteTodosByUser { user_id: 2 }.statement(),
        statement("DELETE FROM todolist WHERE user_id = ?", vec![Param::Number(2)])
    );
}

#[test]
fn a_quote_in_a_value_stays_in_the_parameter() {
    let hostile = "x'); DROP TABLE users; --";
    let plain = Command::InsertTodo { user_id: 1, todoname: String::from("x") }.statement();
    let odd = Command::InsertTodo { user_id: 1, todoname: String::from(hostile) }.statement();
    assert_eq!(plain.unwrap().sql, odd.as_ref().unwrap().sql);
    assert_eq!(odd.unwrap().params, vec![Param::Number(1), text(hostile)]);
}

#[test]
fn placeholders_match_parameters() {
    let commands = vec![
        Command::UserExists { id: 1 },
        Command::FindUser { id: 1 },
        Command::ListUsers,
        Command::InsertUser { user: fields() },
        Command::UpdateUser { id: 1, user: fields() },
        Command::DeleteUser { id: 1 },
        Command::FindTodosByUser { user_id: 1 },
        Command::FindTodosByUserInRange {
            user_id: 1,
            start: String::from("a"),
            end: String::from("b"),
        },
        Command::InsertTodo { user_id: 1, todoname: String::from("t") },
        Command::UpdateTodo { user_id: 1, todoid: 2, todoname: String::from("t") },
        Command::DeleteTodo { user_id: 1, todoid: 2 },
        Command::DeleteTodosByUser { user_id: 1 },
    ];
    for command in commands {
        let statement = command.statement().unwrap();
        let marks = statement.sql.chars().filter(|c| *c == '?').count();
        assert_eq!(marks, statement.params.len());
    }
}

#[test]
fn ready_is_read_as_ready() {
    assert_eq!(Event::Ready.into_ready(), Ok(()));
}

#[test]
fn a_failure_is_read_as_its_diagnostic() {
    let failed = || Event::Failed(String::from("connection reset"));
    let detail = String::from("connection reset");
    assert_eq!(failed().into_ready(), Err(detail.clone()));
    assert_eq!(failed().into_found(), Err(detail.clone()));
    assert_eq!(failed().into_user(), Err(detail.clone()));
    assert_eq!(failed().into_users(), Err(detail.clone()));
    assert_eq!(failed().into_todos(), Err(detail.clone()));
    assert_eq!(failed().into_written(), Err(detail));
}

#[test]
fn an_answer_of_another_kind_is_read_as_a_complaint() {
    let complaint = String::from("unexpected answer from storage");
    assert_eq!(Event::Exists(true).into_ready(), Err(complaint.clone()));
    assert_eq!(Event::Ready.into_found(), Err(complaint.clone()));
    assert_eq!(Event::Users(vec![ada(1)]).into_user(), Err(complaint.clone()));
    assert_eq!(Event::User(Some(ada(1))).into_users(), Err(complaint.clone()));
    assert_eq!(Event::Users(vec![]).into_todos(), Err(complaint.clone()));
    assert_eq!(Event::Todos(vec![]).into_written(), Err(complaint));
}

#[test]
fn fitting_answers_are_read_as_they_are() {
    assert_eq!(Event::Exists(true).into_found(), Ok(true));
    assert_eq!(Event::Exists(false).into_found(), Ok(false));
    assert_eq!(Event::User(None).into_user(), Ok(None));
    assert_eq!(Event::User(Some(ada(3))).into_user(), Ok(Some(ada(3))));
    assert_eq!(Event::Users(vec![ada(1), ada(2)]).into_users(), Ok(vec![ada(1), ada(2)]));
    let todo = TodosModel {
        todoid: 4,
        user_id: 1,
        todoname: String::from("t"),
        created_at: Some(Timestamp { secs: 1_700_000_000, nanos: 5 }),
    };
    assert_eq!(Event::Todos(vec![todo.clone()]).into_todos(), Ok(vec![todo]));
    let written = Written { rows_affected: 2, last_insert_id: 9 };
    assert_eq!(Event::Written(written).into_written(), Ok(written));
}

#[test]
fn an_empty_patch_is_empty() {
    let patch = UpdateUsersSchema { fname: None, lname: None, username: None, userpassword: None };
    assert!(patch.is_empty());
}

#[test]
fn a_patch_with_any_field_is_not_empty() {
    let one = |n: usize| UpdateUsersSchema {
        fname: if n == 0 { Some(String::from("a")) } else { None },
        lname: if n == 1 { Some(String::from("b")) } else { None },
        username: if n == 2 { Some(String::from("c")) } else { None },
        userpassword: if n == 3 { Some(String::new()) } else { None },
    };
    for n in 0..4 {
        assert!(!one(n).is_empty());
    }
}

#[test]
fn a_patch_writes_only_the_fields_it_names() {
    let patch = UpdateUsersSchema {
        fname: None,
        lname: Some(String::from("King")),
        username: None,
        userpassword: None,
    };
    assert_eq!(
        patch.apply(ada(3)),
        UsersModel {
            id: 3,
            fname: String::from("Ada"),
            lname: String::from("King"),
            username: String::from("ada"),
            userpassword: String::from("secret"),
        }
    );
}

#[test]
fn a_full_patch_writes_every_field_but_the_id() {
    let patch = UpdateUsersSchema {
        fname: Some(String::from("Grace")),
        lname: Some(String::from("Hopper")),
        username: Some(String::from("grace")),
        userpassword: Some(String::from("cobol")),
    };
    assert_eq!(
        patch.apply(ada(3)),
        UsersModel {
            id: 3,
            fname: String::from("Grace"),
            lname: String::from("Hopper"),
            username: String::from("grace"),
            userpassword: String::from("cobol"),
        }
    );
}

#[test]
fn an_empty_patch_leaves_the_user() {
    let patch = UpdateUsersSchema { fname: None, lname: None, username: None, userpassword: None };
    assert_eq!(patch.apply(ada(3)), ada(3));
}

//! Storage as the handlers rely on it: two tables with primary keys, ids
//! that storage assigns in rising order, and transactions that are undone
//! unless they are committed.
//!
//! This is a description, used to state what a request does to the data. No
//! code runs it, and it never fails: what a handler does when storage fails
//! is stated by the handler's own contract.

use vstd::prelude::*;
use crate::model::{Timestamp, TodoView, UserView};
use crate::repository::{CommandView, EventView, WrittenView};
use crate::schema::{TodoEditView, UserFieldsView};

verus! {

/// Whether the row of `users` at `index` has the id `id`.
pub open spec fn user_row_at(users: Seq<UserView>, id: int, index: int) -> bool {
    0 <= index < users.len() && users[index].id == id
}

/// Whether the row of `todos` at `index` has the id `todoid` and belongs to
/// the user `user_id`.
pub open spec fn todo_row_at(todos: Seq<TodoView>, user_id: int, todoid: int, index: int) -> bool {
    &&& 0 <= index < todos.len()
    &&& todos[index].todoid == todoid
    &&& todos[index].user_id == user_id
}

/// The rows of `users` and of `todolist`, in the order in which storage
/// lists them, and the ids that the next inserts will get.
pub struct Tables {
    pub users: Seq<UserView>,
    pub todos: Seq<TodoView>,
    pub next_user: int,
    pub next_todo: int,
}

impl Tables {
    /// The primary keys hold: no two users share an id, no two todos share
    /// a todoid, and every id in use lies below the next one to be
    /// assigned.
    pub open spec fn wf(self) -> bool {
        &&& forall|i: int, j: int|
            0 <= i < j < self.users.len() ==> self.users[i].id != self.users[j].id
        &&& forall|i: int| 0 <= i < self.users.len() ==> (#[trigger] self.users[i]).id < self.next_user
        &&& forall|i: int, j: int|
            0 <= i < j < self.todos.len() ==> self.todos[i].todoid != self.todos[j].todoid
        &&& forall|i: int|
            0 <= i < self.todos.len() ==> (#[trigger] self.todos[i]).todoid < self.next_todo
    }

    /// Whether `index` is the place of the user with the id `id`.
    pub open spec fn user_at(self, id: int, index: int) -> bool {
        user_row_at(self.users, id, index)
    }

    /// Whether there is a user with the id `id`.
    pub open spec fn has_user(self, id: int) -> bool {
        exists|index: int| user_row_at(self.users, id, index)
    }

    /// The place of the user with the id `id`, if there is one.
    pub open spec fn user_index(self, id: int) -> int {
        choose|index: int| user_row_at(self.users, id, index)
    }

    /// The user with the id `id`.
    pub open spec fn find_user(self, id: int) -> Option<UserView> {
        if self.has_user(id) {
            Some(self.users[self.user_index(id)])
        } else {
            None
        }
    }

    /// Whether `index` is the place of the todo with the id `todoid`, and
    /// that todo belongs to the user `user_id`.
    pub open spec fn todo_at(self, user_id: int, todoid: int, index: int) -> bool {
        todo_row_at(self.todos, user_id, todoid, index)
    }

    /// Whether the user `user_id` has a todo with the id `todoid`.
    pub open spec fn has_todo(self, user_id: int, todoid: int) -> bool {
        exists|index: int| todo_row_at(self.todos, user_id, todoid, index)
    }

    /// The place of the todo `todoid` of the user `user_id`, if there is
    /// one.
    pub open spec fn todo_index(self, user_id: int, todoid: int) -> int {
        choose|index: int| todo_row_at(self.todos, user_id, todoid, index)
    }

    /// The todos of the user `user_id`, in the order of the table.
    pub open spec fn todos_of(self, user_id: int) -> Seq<TodoView> {
        self.todos.filter(|todo: TodoView| todo.user_id == user_id)
    }

    /// The todos of every other user, in the order of the table.
    pub open spec fn todos_of_others(self, user_id: int) -> Seq<TodoView> {
        self.todos.filter(|todo: TodoView| todo.user_id != user_id)
    }

    /// The tables after the insert of a user with the fields `user`.
    pub open spec fn insert_user(self, user: UserFieldsView) -> Tables {
        Tables {
            users: self.users.push(user.with_id(self.next_user)),
            next_user: self.next_user + 1,
            ..self
        }
    }

    /// The tables after the fields of the user `id` are set to `user`.
    pub open spec fn update_user(self, id: int, user: UserFieldsView) -> Tables {
        if self.has_user(id) {
            Tables { users: self.users.update(self.user_index(id), user.with_id(id)), ..self }
        } else {
            self
        }
    }

    /// The tables after the user `id` is removed.
    pub open spec fn delete_user(self, id: int) -> Tables {
        if self.has_user(id) {
            Tables { users: self.users.remove(self.user_index(id)), ..self }
        } else {
            self
        }
    }

    /// The tables after the insert of a todo of the user `user_id`, created
    /// at `now`. That the user exists is not the table's concern.
    pub open spec fn insert_todo(self, user_id: int, todoname: Seq<char>, now: Timestamp) -> Tables {
        Tables {
            todos: self.todos.push(
                TodoView { todoid: self.next_todo, user_id, todoname, created_at: Some(now) },
            ),
            next_todo: self.next_todo + 1,
            ..self
        }
    }

    /// The tables after the todo `todoid` of the user `user_id` gets the
    /// text `todoname`.
    pub open spec fn update_todo(self, user_id: int, todoid: int, todoname: Seq<char>) -> Tables {
        if self.has_todo(user_id, todoid) {
            let index = self.todo_index(user_id, todoid);
            Tables {
                todos: self.todos.update(index, TodoView { todoname, ..self.todos[index] }),
                ..self
            }
        } else {
            self
        }
    }

    /// The tables after the todo `todoid` of the user `user_id` is removed.
    pub open spec fn delete_todo(self, user_id: int, todoid: int) -> Tables {
        if self.has_todo(user_id, todoid) {
            Tables { todos: self.todos.remove(self.todo_index(user_id, todoid)), ..self }
        } else {
            self
        }
    }

    /// The tables after every todo of the user `user_id` is removed.
    pub open spec fn delete_todos_of(self, user_id: int) -> Tables {
        Tables { todos: self.todos_of_others(user_id), ..self }
    }

    /// The tables after a todo of the user `user_id` is inserted for each
    /// text of `names`, in their order.
    pub open spec fn insert_todos(self, user_id: int, names: Seq<Seq<char>>, now: Timestamp) -> Tables
        decreases names.len(),
    {
        if names.len() == 0 {
            self
        } else {
            self.insert_todo(user_id, names.first(), now).insert_todos(
                user_id,
                names.drop_first(),
                now,
            )
        }
    }

    /// The tables after the edits are applied in their order up to the
    /// first that names no todo of the user `user_id`, and the todoid that
    /// this edit names, or `None` if every edit found its todo. What was
    /// applied before that edit stays applied.
    pub open spec fn edit_todos(self, user_id: int, edits: Seq<TodoEditView>) -> (
        Tables,
        Option<int>,
    )
        decreases edits.len(),
    {
        if edits.len() == 0 {
            (self, None)
        } else if !self.has_todo(user_id, edits.first().todoid) {
            (self, Some(edits.first().todoid))
        } else {
            self.update_todo(user_id, edits.first().todoid, edits.first().todoname).edit_todos(
                user_id,
                edits.drop_first(),
            )
        }
    }
}

/// One row was matched, or none.
pub open spec fn matched(hit: bool) -> WrittenView {
    WrittenView { rows_affected: if hit { 1 } else { 0 }, last_insert_id: 0 }
}

/// Storage at one moment.
pub struct Storage {
    /// The tables as the next command sees them.
    pub tables: Tables,
    /// The tables as they were when the open transaction began, if one is
    /// open.
    pub saved: Option<Tables>,
    /// The creation time that a todo inserted now gets.
    pub now: Timestamp,
    /// How storage reads the bounds of a query by creation time: whether a
    /// creation time lies between the two texts, both included.
    pub between: spec_fn(Option<Timestamp>, Seq<char>, Seq<char>) -> bool,
}

impl Storage {
    /// The tables are well-formed and no transaction is open: the state
    /// between two requests.
    pub open spec fn at_rest(self) -> bool {
        self.tables.wf() && self.saved is None
    }

    /// The primary keys hold in the tables, and in the tables that an open
    /// transaction would go back to.
    pub open spec fn sound(self) -> bool {
        &&& self.tables.wf()
        &&& self.saved matches Some(tables) ==> tables.wf()
    }

    /// The same storage with other tables.
    pub open spec fn with(self, tables: Tables) -> Storage {
        Storage { tables, ..self }
    }

    /// The todos of the user `user_id` whose creation time lies between
    /// `start` and `end` as storage reads them.
    pub open spec fn todos_in_range(self, user_id: int, start: Seq<char>, end: Seq<char>) -> Seq<
        TodoView,
    > {
        self.tables.todos_of(user_id).filter(
            |todo: TodoView| (self.between)(todo.created_at, start, end),
        )
    }

    /// Storage after `command`, and its answer.
    pub open spec fn answer(self, command: CommandView) -> (Storage, EventView) {
        match command {
            CommandView::Begin => (
                Storage {
                    saved: Some(
                        match self.saved {
                            Some(tables) => tables,
                            None => self.tables,
                        },
                    ),
                    ..self
                },
                EventView::Ready,
            ),
            CommandView::Commit => (Storage { saved: None, ..self }, EventView::Ready),
            CommandView::UserExists { id } => (self, EventView::Exists(self.tables.has_user(id))),
            CommandView::FindUser { id } => (self, EventView::User(self.tables.find_user(id))),
            CommandView::ListUsers => (self, EventView::Users(self.tables.users)),
            CommandView::InsertUser { user } => (
                self.with(self.tables.insert_user(user)),
                EventView::Written(
                    WrittenView { rows_affected: 1, last_insert_id: self.tables.next_user },
                ),
            ),
            CommandView::UpdateUser { id, user } => (
                self.with(self.tables.update_user(id, user)),
                EventView::Written(matched(self.tables.has_user(id))),
            ),
            CommandView::DeleteUser { id } => (
                self.with(self.tables.delete_user(id)),
                EventView::Written(matched(self.tables.has_user(id))),
            ),
            CommandView::FindTodosByUser { user_id } => (
                self,
                EventView::Todos(self.tables.todos_of(user_id)),
            ),
            CommandView::FindTodosByUserInRange { user_id, start, end } => (
                self,
                EventView::Todos(self.todos_in_range(user_id, start, end)),
            ),
            CommandView::InsertTodo { user_id, todoname } => (
                self.with(self.tables.insert_todo(user_id, todoname, self.now)),
                EventView::Written(
                    WrittenView { rows_affected: 1, last_insert_id: self.tables.next_todo },
                ),
            ),
            CommandView::UpdateTodo { user_id, todoid, todoname } => (
                self.with(self.tables.update_todo(user_id, todoid, todoname)),
                EventView::Written(matched(self.tables.has_todo(user_id, todoid))),
            ),
            CommandView::DeleteTodo { user_id, todoid } => (
                self.with(self.tables.delete_todo(user_id, todoid)),
                EventView::Written(matched(self.tables.has_todo(user_id, todoid))),
            ),
            CommandView::DeleteTodosByUser { user_id } => (
                self.with(self.tables.delete_todos_of(user_id)),
                EventView::Written(
                    WrittenView {
                        rows_affected: self.tables.todos_of(user_id).len() as int,
                        last_insert_id: 0,
                    },
                ),
            ),
        }
    }

    /// Storage once the request is over: a transaction that is still open
    /// is undone.
    pub open spec fn settle(self) -> Storage {
        match self.saved {
            Some(tables) => Storage { tables, saved: None, ..self },
            None => self,
        }
    }
}

/// No two todos of `todos` share a todoid.
pub open spec fn distinct_todoids(todos: Seq<TodoView>) -> bool {
    forall|i: int, j: int| 0 <= i < j < todos.len() ==> todos[i].todoid != todos[j].todoid
}

/// Every row that a filter keeps is a row of the table.
pub proof fn lemma_kept_row_is_a_row(todos: Seq<TodoView>, keep: spec_fn(TodoView) -> bool, k: int)
    requires
        0 <= k < todos.filter(keep).len(),
    ensures
        exists|i: int| 0 <= i < todos.len() && todos[i] == todos.filter(keep)[k],
        keep(todos.filter(keep)[k]),
{
    let kept = todos.filter(keep);
    assert(kept.contains(kept[k]));
    todos.lemma_filter_contains_rev(keep, kept[k]);
    todos.lemma_filter_pred(keep, k);
}

/// A filter keeps the primary key: what it keeps has distinct todoids if
/// the table has.
pub proof fn lemma_filter_keeps_key(todos: Seq<TodoView>, keep: spec_fn(TodoView) -> bool)
    requires
        distinct_todoids(todos),
    ensures
        distinct_todoids(todos.filter(keep)),
    decreases todos.len(),
{
    if todos.len() == 0 {
        todos.lemma_filter_len(keep);
    } else {
        let front = todos.drop_last();
        let last = todos.last();
        assert(front.push(last) =~= todos);
        front.lemma_filter_push(last, keep);
        lemma_filter_keeps_key(front, keep);
        if keep(last) {
            let kept = front.filter(keep);
            assert forall|k: int| 0 <= k < kept.len() implies (#[trigger] kept[k]).todoid
                != last.todoid by {
                lemma_kept_row_is_a_row(front, keep, k);
                let i = choose|i: int| 0 <= i < front.len() && front[i] == kept[k];
                assert(todos[i].todoid != todos[todos.len() - 1].todoid);
            }
        }
    }
}

/// In any table, the todos of one user and the todos of the others are
/// all the todos.
pub proof fn lemma_split_by_owner(todos: Seq<TodoView>, user_id: int)
    ensures
        todos.filter(|todo: TodoView| todo.user_id == user_id).len() + todos.filter(
            |todo: TodoView| todo.user_id != user_id,
        ).len() == todos.len(),
    decreases todos.len(),
{
    let owned = |todo: TodoView| todo.user_id == user_id;
    let others = |todo: TodoView| todo.user_id != user_id;
    if todos.len() == 0 {
        todos.lemma_filter_len(owned);
        todos.lemma_filter_len(others);
    } else {
        let front = todos.drop_last();
        assert(front.push(todos.last()) =~= todos);
        front.lemma_filter_push(todos.last(), owned);
        front.lemma_filter_push(todos.last(), others);
        lemma_split_by_owner(front, user_id);
    }
}

impl Tables {
    /// With the primary key, the user with an id is the one row that has
    /// it.
    pub proof fn lemma_user_found(self, id: int, index: int)
        requires
            self.wf(),
            self.user_at(id, index),
        ensures
            self.has_user(id),
            self.user_index(id) == index,
            self.find_user(id) == Some(self.users[index]),
    {
        let chosen = self.user_index(id);
        assert(self.user_at(id, chosen));
        if chosen < index {
            assert(self.users[chosen].id != self.users[index].id);
        } else if index < chosen {
            assert(self.users[index].id != self.users[chosen].id);
        }
    }

    /// With the primary key, the todo with an id is the one row that has
    /// it.
    pub proof fn lemma_todo_found(self, user_id: int, todoid: int, index: int)
        requires
            self.wf(),
            self.todo_at(user_id, todoid, index),
        ensures
            self.has_todo(user_id, todoid),
            self.todo_index(user_id, todoid) == index,
    {
        let chosen = self.todo_index(user_id, todoid);
        assert(self.todo_at(user_id, todoid, chosen));
        if chosen < index {
            assert(self.todos[chosen].todoid != self.todos[index].todoid);
        } else if index < chosen {
            assert(self.todos[index].todoid != self.todos[chosen].todoid);
        }
    }

    /// An insert gives the user an id that no user had, keeps the primary
    /// keys, and leaves every other user as it was.
    pub proof fn lemma_insert_user(self, user: UserFieldsView)
        requires
            self.wf(),
        ensures
            !self.has_user(self.next_user),
            self.insert_user(user).wf(),
            self.insert_user(user).find_user(self.next_user) == Some(
                user.with_id(self.next_user),
            ),
            forall|id: int|
                id != self.next_user ==> #[trigger] self.insert_user(user).find_user(id)
                    == self.find_user(id),
    {
        let after = self.insert_user(user);
        assert(after.user_at(self.next_user, self.users.len() as int));
        after.lemma_user_found(self.next_user, self.users.len() as int);
        assert forall|id: int| id != self.next_user implies #[trigger] after.find_user(id)
            == self.find_user(id) by {
            if self.has_user(id) {
                let index = self.user_index(id);
                assert(self.user_at(id, index));
                assert(after.user_at(id, index));
                after.lemma_user_found(id, index);
            } else if after.has_user(id) {
                let index = after.user_index(id);
                assert(after.user_at(id, index));
                assert(self.user_at(id, index));
            }
        }
    }

    /// An update leaves the primary keys and every other user as they
    /// were, and the user that it names has the new fields.
    pub proof fn lemma_update_user(self, id: int, user: UserFieldsView)
        requires
            self.wf(),
        ensures
            self.update_user(id, user).wf(),
            self.has_user(id) ==> self.update_user(id, user).find_user(id) == Some(
                user.with_id(id),
            ),
            forall|other: int|
                other != id ==> #[trigger] self.update_user(id, user).find_user(other)
                    == self.find_user(other),
    {
        let after = self.update_user(id, user);
        if self.has_user(id) {
            let place = self.user_index(id);
            assert(self.user_at(id, place));
            assert(after.user_at(id, place));
            assert forall|i: int| 0 <= i < after.users.len() implies (#[trigger] after.users[i]).id
                == self.users[i].id by {}
            after.lemma_user_found(id, place);
            assert forall|other: int| other != id implies #[trigger] after.find_user(other)
                == self.find_user(other) by {
                if self.has_user(other) {
                    let index = self.user_index(other);
                    assert(self.user_at(other, index));
                    assert(after.user_at(other, index));
                    after.lemma_user_found(other, index);
                } else if after.has_user(other) {
                    let index = after.user_index(other);
                    assert(after.user_at(other, index));
                    assert(self.user_at(other, index));
                }
            }
        }
    }

    /// A delete leaves the primary keys and every other user as they were,
    /// and the user that it names is gone.
    pub proof fn lemma_delete_user(self, id: int)
        requires
            self.wf(),
        ensures
            self.delete_user(id).wf(),
            !self.delete_user(id).has_user(id),
            forall|other: int|
                other != id ==> #[trigger] self.delete_user(id).find_user(other)
                    == self.find_user(other),
            self.has_user(id) ==> self.delete_user(id).users.len() == self.users.len() - 1,
    {
        let after = self.delete_user(id);
        if self.has_user(id) {
            let place = self.user_index(id);
            assert(self.user_at(id, place));
            assert forall|i: int| 0 <= i < after.users.len() implies #[trigger] after.users[i]
                == self.users[if i < place { i } else { i + 1 }] by {}
            if after.has_user(id) {
                let index = after.user_index(id);
                assert(after.user_at(id, index));
                let origin = if index < place { index } else { index + 1 };
                assert(self.user_at(id, origin));
                self.lemma_user_found(id, origin);
            }
            assert forall|other: int| other != id implies #[trigger] after.find_user(other)
                == self.find_user(other) by {
                if self.has_user(other) {
                    let index = self.user_index(other);
                    assert(self.user_at(other, index));
                    let moved = if index < place { index } else { index - 1 };
                    assert(after.user_at(other, moved));
                    after.lemma_user_found(other, moved);
                } else if after.has_user(other) {
                    let index = after.user_index(other);
                    assert(after.user_at(other, index));
                    let origin = if index < place { index } else { index + 1 };
                    assert(self.user_at(other, origin));
                }
            }
        }
    }

    /// The insert of a todo keeps the primary keys.
    pub proof fn lemma_insert_todo(self, user_id: int, todoname: Seq<char>, now: Timestamp)
        requires
            self.wf(),
        ensures
            self.insert_todo(user_id, todoname, now).wf(),
    {
    }

    /// The update of a todo keeps the primary keys.
    pub proof fn lemma_update_todo(self, user_id: int, todoid: int, todoname: Seq<char>)
        requires
            self.wf(),
        ensures
            self.update_todo(user_id, todoid, todoname).wf(),
    {
        if self.has_todo(user_id, todoid) {
            let place = self.todo_index(user_id, todoid);
            assert(self.todo_at(user_id, todoid, place));
        }
    }

    /// The delete of a todo keeps the primary keys, and the todo is gone.
    pub proof fn lemma_delete_todo(self, user_id: int, todoid: int)
        requires
            self.wf(),
        ensures
            self.delete_todo(user_id, todoid).wf(),
            !self.delete_todo(user_id, todoid).has_todo(user_id, todoid),
    {
        let after = self.delete_todo(user_id, todoid);
        if self.has_todo(user_id, todoid) {
            let place = self.todo_index(user_id, todoid);
            assert(self.todo_at(user_id, todoid, place));
            assert forall|i: int| 0 <= i < after.todos.len() implies #[trigger] after.todos[i]
                == self.todos[if i < place { i } else { i + 1 }] by {}
            if after.has_todo(user_id, todoid) {
                let index = after.todo_index(user_id, todoid);
                assert(after.todo_at(user_id, todoid, index));
                let origin = if index < place { index } else { index + 1 };
                assert(self.todo_at(user_id, todoid, origin));
                self.lemma_todo_found(user_id, todoid, origin);
            }
        }
    }

    /// The delete of a user's todos keeps the primary keys, leaves that
    /// user without todos, and leaves the users as they were.
    pub proof fn lemma_delete_todos_of(self, user_id: int)
        requires
            self.wf(),
        ensures
            self.delete_todos_of(user_id).wf(),
            self.delete_todos_of(user_id).todos_of(user_id) == Seq::<TodoView>::empty(),
    {
        let keep = |todo: TodoView| todo.user_id != user_id;
        let owned = |todo: TodoView| todo.user_id == user_id;
        let kept = self.todos.filter(keep);
        assert(distinct_todoids(self.todos));
        lemma_filter_keeps_key(self.todos, keep);
        assert forall|k: int| 0 <= k < kept.len() implies (#[trigger] kept[k]).todoid
            < self.next_todo && !owned(kept[k]) by {
            lemma_kept_row_is_a_row(self.todos, keep, k);
        }
        assert(kept.all(|todo: TodoView| !owned(todo)));
        kept.lemma_all_neg_filter_empty(owned);
        assert(kept.filter(owned) =~= Seq::<TodoView>::empty());
    }
}

impl Tables {
    /// The todos that a batch of inserts adds stand at the end of the
    /// table, in the order of the batch, under ids that rise by one.
    pub proof fn lemma_insert_todos(self, user_id: int, names: Seq<Seq<char>>, now: Timestamp)
        ensures
            self.insert_todos(user_id, names, now) == (Tables {
                todos: self.todos + Seq::new(
                    names.len(),
                    |k: int|
                        TodoView {
                            todoid: self.next_todo + k,
                            user_id,
                            todoname: names[k],
                            created_at: Some(now),
                        },
                ),
                next_todo: self.next_todo + names.len(),
                ..self
            }),
        decreases names.len(),
    {
        let added = Seq::new(
            names.len(),
            |k: int|
                TodoView {
                    todoid: self.next_todo + k,
                    user_id,
                    todoname: names[k],
                    created_at: Some(now),
                },
        );
        if names.len() == 0 {
            assert(self.todos + added =~= self.todos);
        } else {
            let first = self.insert_todo(user_id, names.first(), now);
            let rest = names.drop_first();
            first.lemma_insert_todos(user_id, rest, now);
            let later = Seq::new(
                rest.len(),
                |k: int|
                    TodoView {
                        todoid: first.next_todo + k,
                        user_id,
                        todoname: rest[k],
                        created_at: Some(now),
                    },
            );
            assert(first.todos + later =~= self.todos + added);
        }
    }
}

impl Storage {
    /// No command breaks a primary key.
    pub proof fn lemma_answer_keeps_keys(self, command: CommandView)
        requires
            self.sound(),
        ensures
            self.answer(command).0.sound(),
    {
        match command {
            CommandView::InsertUser { user } => {
                self.tables.lemma_insert_user(user);
            },
            CommandView::UpdateUser { id, user } => {
                self.tables.lemma_update_user(id, user);
            },
            CommandView::DeleteUser { id } => {
                self.tables.lemma_delete_user(id);
            },
            CommandView::InsertTodo { user_id, todoname } => {
                self.tables.lemma_insert_todo(user_id, todoname, self.now);
            },
            CommandView::UpdateTodo { user_id, todoid, todoname } => {
                self.tables.lemma_update_todo(user_id, todoid, todoname);
            },
            CommandView::DeleteTodo { user_id, todoid } => {
                self.tables.lemma_delete_todo(user_id, todoid);
            },
            CommandView::DeleteTodosByUser { user_id } => {
                self.tables.lemma_delete_todos_of(user_id);
            },
            _ => {},
        }
    }
}

} // verus!

//! How a handler and its driver take turns.
//!
//! The driver calls the handler with [`Progress::Start`]. The handler answers
//! with a [`Step`]: either a command to run and a state to come back with, or
//! the reply. The driver runs the command and calls the handler again with
//! [`Progress::Resumed`], which holds that state and what storage answered.
//! A handler keeps nothing between calls but the state it handed out.

use vstd::prelude::*;
use crate::model::{UserView, UsersModel};
use crate::repository::{Command, CommandView, Event, EventView};
use crate::response::{Reply, ReplyView};

verus! {

/// Where a handler is taken up.
#[derive(Debug, PartialEq, Eq)]
pub enum Progress<S> {
    /// At the beginning: nothing has run yet.
    Start,
    /// After the command that the handler asked for: the state it handed
    /// out with the command, and storage's answer.
    Resumed(S, Event),
}

/// Where a handler is taken up, as mathematics.
pub enum ProgressView<S> {
    Start,
    Resumed(S, EventView),
}

impl<S: View> View for Progress<S> {
    type V = ProgressView<S::V>;

    open spec fn view(&self) -> ProgressView<S::V> {
        match self {
            Progress::Start => ProgressView::Start,
            Progress::Resumed(state, event) => ProgressView::Resumed(state@, event@),
        }
    }
}

/// What a handler wants next.
#[derive(Debug, PartialEq, Eq)]
pub enum Step<S> {
    /// Run the command, then come back with the state and the answer.
    Run(Command, S),
    /// Send the reply. A transaction that is still open is rolled back.
    Done(Reply),
}

/// What a handler wants next, as mathematics.
pub enum StepView<S> {
    Run(CommandView, S),
    Done(ReplyView),
}

impl<S: View> View for Step<S> {
    type V = StepView<S::V>;

    open spec fn view(&self) -> StepView<S::V> {
        match self {
            Step::Run(command, state) => StepView::Run(command@, state@),
            Step::Done(reply) => StepView::Done(reply@),
        }
    }
}

/// The one state of a handler that runs a single command.
#[derive(Clone, Copy, Debug, PartialEq, Eq, Structural)]
pub enum Single {
    /// The command is running.
    Waiting,
}

impl View for Single {
    type V = Single;

    open spec fn view(&self) -> Single {
        *self
    }
}

/// The states of a handler that looks for the user first and then runs one
/// command.
#[derive(Clone, Copy, Debug, PartialEq, Eq, Structural)]
pub enum Guarded {
    /// The lookup of the user is running.
    Checking,
    /// The user is there; the command is running.
    Acting,
}

impl View for Guarded {
    type V = Guarded;

    open spec fn view(&self) -> Guarded {
        *self
    }
}

/// The states of a handler that fetches a user and then, holding the user,
/// runs one command more.
#[derive(Debug, PartialEq, Eq)]
pub enum Holding {
    /// The fetch of the user is running.
    Fetching,
    /// The user is in hand; the second command is running.
    With(UsersModel),
}

/// The states of a handler that holds a user, as mathematics.
pub enum HoldingView {
    Fetching,
    With(UserView),
}

impl View for Holding {
    type V = HoldingView;

    open spec fn view(&self) -> HoldingView {
        match self {
            Holding::Fetching => HoldingView::Fetching,
            Holding::With(user) => HoldingView::With(user@),
        }
    }
}

/// The states of the handler that looks for the user first and then inserts
/// the todos of a batch one by one.
#[derive(Clone, Copy, Debug, PartialEq, Eq, Structural)]
pub enum Adding {
    /// The lookup of the user is running.
    Checking,
    /// The insert of the todo at this place of the batch is running.
    Inserting(usize),
}

/// The states of the handler that adds todos, as mathematics.
pub enum AddingView {
    Checking,
    Inserting(int),
}

impl View for Adding {
    type V = AddingView;

    open spec fn view(&self) -> AddingView {
        match self {
            Adding::Checking => AddingView::Checking,
            Adding::Inserting(index) => AddingView::Inserting(*index as int),
        }
    }
}

/// The states of the handler that looks for the user first and then applies
/// the edits of a batch one by one.
#[derive(Clone, Copy, Debug, PartialEq, Eq, Structural)]
pub enum Editing {
    /// The lookup of the user is running.
    Checking,
    /// The update for the edit at `index` is running; `todoid` is the todo
    /// that the edit names.
    Updating { index: usize, todoid: u64 },
}

/// The states of the handler that updates todos, as mathematics.
pub enum EditingView {
    Checking,
    Updating { index: int, todoid: int },
}

impl View for Editing {
    type V = EditingView;

    open spec fn view(&self) -> EditingView {
        match self {
            Editing::Checking => EditingView::Checking,
            Editing::Updating { index, todoid } => EditingView::Updating {
                index: *index as int,
                todoid: *todoid as int,
            },
        }
    }
}

/// The states of the handler that deletes a user and the user's todos in one
/// transaction.
#[derive(Clone, Copy, Debug, PartialEq, Eq, Structural)]
pub enum Purge {
    /// `Begin` is running.
    Opening,
    /// The delete of the todos is running.
    DeletingTodos,
    /// The delete of the user is running.
    DeletingUser,
    /// `Commit` is running.
    Committing,
}

impl View for Purge {
    type V = Purge;

    open spec fn view(&self) -> Purge {
        *self
    }
}

} // verus!

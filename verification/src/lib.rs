//! The verified core of a service that keeps users and their todos.
//!
//! Nothing in this crate talks to a database or to the network. A request
//! handler is a function that is called at the start of a request and again
//! after each command that it asked storage to run; each time it says which
//! command comes next, or which reply is to be sent. A driver outside this
//! crate runs the commands and sends the replies.
//!
//! - [`model`] and [`schema`]: the rows and the payloads of requests.
//! - [`repository`]: the commands, their statements, and storage's answers.
//! - [`response`] and [`text`]: replies and the texts of their messages.
//! - [`flow`]: how handler and driver take turns.
//! - [`orchestrator`]: what each handler decides, as mathematics.
//! - [`handler`]: the handlers, each proved to decide just that.
//! - [`storage`] and [`service`]: a description of storage, and of a whole
//!   request against it.
//! - [`laws`]: what is proved of whole requests.

pub mod flow;
pub mod handler;
pub mod laws;
pub mod model;
pub mod orchestrator;
pub mod repository;
pub mod response;
pub mod schema;
pub mod service;
pub mod storage;
pub mod text;

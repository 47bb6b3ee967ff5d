//! Hatysa is a chat bot that implements a few fun commands: this crate is its
//! backend, free of any transport.
//!
//! A message comes in as text. The [`handler`] decides whether the text is a
//! command and which one; the [`command`] runs; and the [`task`] says, one
//! operation at a time, what is to be done on the chat platform to answer
//! the message: send the response, or tell the user what went wrong and
//! wait for the user to dismiss the report. The operations themselves are
//! carried out by whoever runs the task, who hands back what came of each.
//!
//! [`text`] holds the operations on characters that the rest is written
//! with, and [`markup`] puts message text together.

pub mod command;
pub mod handler;
pub mod markup;
pub mod task;
pub mod text;

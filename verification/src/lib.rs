//! A chat bot that keeps one shared non-negative counter and answers a
//! small set of text commands: increment it, show it, reset it, set it to a
//! given value, and print a help message.
//!
//! Everything observable is specified: how a message is split into tokens,
//! which command the first token selects, how the counter changes, and the
//! exact text of every reply.

pub mod command;
pub mod counter;
pub mod dispatch;
pub mod laws;
pub mod numeral;
pub mod search;
pub mod tokens;

pub use command::Command;
pub use counter::Counter;
pub use dispatch::handle_message;

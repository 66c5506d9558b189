//! The logic of a small interactive shell front-end: how a line read at the
//! prompt is classified, what the session does in response, and how the result
//! of a forwarded command is shown.
//!
//! The library performs no input or output itself. A driver reads lines, spawns
//! the interpreter and writes text; every decision in between is taken here and
//! carries a contract.

pub mod banner;
pub mod command;
pub mod directive;
pub mod session;
pub mod text;

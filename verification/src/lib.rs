//! A verified core for an interactive shell front-end.
//!
//! The library holds the two stateful parts of such a front-end: the
//! editable input line with its key-handling policy, and the command
//! dispatcher that either plans a built-in directory operation or
//! delegates a line to the platform shell and then words the outcome.
//! Process spawning and terminal control stay outside the library;
//! callers run the planned invocation and hand the result back.

pub mod buffer;
pub mod convert;
pub mod dispatch;
pub mod session;
pub mod tokens;

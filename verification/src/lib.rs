//! Thread-affine registry and dispatch core for embedded native web views.
//!
//! A host toolkit hands over the number of one of its windows; a web view is
//! built inside that window and from then on addressed by an identifier. Native
//! widgets may only be touched on the thread that created them, so every web
//! view remembers its owning thread and every operation is checked against it.
//!
//! The library decides; it does not talk to the rendering engine or to the
//! windowing toolkit itself. Whatever only they can do is handed in by the
//! caller as a function, and the contracts say exactly what that function is
//! asked and what becomes of its answer.
//!
//! - [`handle`] resolves the host's window handle for each platform.
//! - [`bounds`] keeps rectangles at least one pixel wide and high.
//! - [`registry`] holds the live web views, their owners and their mirrors.
//! - [`state`] is the mirror of a web view's attributes, fed by engine events.
//! - [`dispatch`] chooses where an operation runs.
//! - [`command`] and [`cookie`] describe what the engine is asked and answers.
//! - [`operations`] are the operations themselves.
//! - [`history`] states what holds over every sequence of operations.
//! - [`error`] and [`text`] name the failures and put them into words.

pub mod bounds;
pub mod command;
pub mod cookie;
pub mod dispatch;
pub mod error;
pub mod handle;
pub mod history;
pub mod operations;
pub mod registry;
pub mod state;
pub mod text;

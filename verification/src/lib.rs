//! The core of an interactive wallet shell.
//!
//! A session reads one line after the other, makes a command of each, runs
//! it against the session's state, and keeps a cache of completion
//! candidates up to date with what the commands return. This crate holds the
//! decisions of such a session and the cache; reading, running and writing
//! are left to whoever drives it.
//!
//! - [`key`] and [`cache`]: the completion cache and its keys.
//! - [`command`]: what a successful command hands back.
//! - [`completion`]: which cache entries a result fills, and with what.
//! - [`dispatch`]: the handling of one line, step by step.
//! - [`handler`]: what one dispatch, and a session of them, comes to.
//! - [`bootstrap`]: the pass over the known subjects before the first line.

pub mod bootstrap;
pub mod cache;
pub mod command;
pub mod completion;
pub mod dispatch;
pub mod handler;
pub mod key;

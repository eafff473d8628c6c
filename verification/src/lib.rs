//! Finding filesystem entries whose path is longer than a limit.
//!
//! The crate holds the decisions of a directory scan and of the session
//! around it; reading directories, clocks and dialogs is left to the caller.

pub mod batcher;
pub mod cancel;
pub mod classify;
pub mod csv;
pub mod export;
pub mod laws;
pub mod reader;
pub mod scanner;
pub mod screen;
pub mod text;
pub mod ui;

//! Navigation, text-input and key-dispatch core of a terminal client for a
//! music player daemon.
//!
//! Every decision the interactive client makes lives here: list cursors,
//! input modes, text buffers, directory-browser paths and the routing of key
//! events. The daemon itself is reached by the caller, which performs the
//! [`app::Action`] that each key event yields.

pub mod list;
pub mod text;
pub mod paths;
pub mod song;
pub mod browser;
pub mod search;
pub mod utils;
pub mod order;
pub mod app;
pub mod handler;
pub mod format;
pub mod cli;

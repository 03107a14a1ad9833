//! Flash-card study tool: the interaction state machine that coordinates
//! top-level navigation, directory browsing and quiz progression.
//!
//! The library holds no terminal and touches no file. Whoever drives it reads
//! directories and files, hands the results in as plain values, and carries out
//! the [`request::Request`] that a transition hands back.

pub mod file_browser;
pub mod file_handler;
pub mod game;
pub mod key;
pub mod key_handler;
pub mod path;
pub mod request;

//! Page-stack navigation for a terminal browser of a git repository.
//!
//! The browser walks from the repository's references down through commits
//! and trees to file contents. This crate holds its state machine: the pages,
//! their cursors and scrolling windows, and the stack that records how far
//! the user has descended. Reading the repository and painting the terminal
//! are left to the program around it, which hands plain values in and takes
//! plain values back.

pub mod app;
pub mod objects;
pub mod text;
pub mod traits;
pub mod ui;

//! Verified core of a single-instance desktop shell.
//!
//! The shell lets one running copy of the application own the visible
//! window. A second launch defers to the first one, which brings its window
//! back to the foreground. This crate holds the decisions behind that
//! behaviour, each with a proved contract; the program around it talks to
//! the operating system and the UI framework.

pub mod arbiter;
pub mod bridge;
pub mod failure;
pub mod launches;
pub mod session;
pub mod startup;
pub mod window;

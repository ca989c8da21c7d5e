//! Reply shaping for the window commands of a desktop shell.
//!
//! A front end asks the shell to minimise, maximise, restore or close its
//! native window, or whether the window is maximised. The shell hands each
//! request to the windowing toolkit once and reports what came back: a
//! success passes through untouched, a failure reaches the front end as the
//! toolkit's own description of it. This crate holds that last step and the
//! error type it works on; the toolkit calls themselves belong to the
//! program that embeds it.

pub mod error;
pub mod facade;

pub use error::ToolkitError;
pub use facade::reply;

//! Startup policy of a desktop application shell.
//!
//! The shell itself (its windows, its event loop, its plug-ins) belongs to a
//! GUI framework. What this library holds is everything that is decided while
//! the shell starts: which capabilities are registered and in what order,
//! whether logging is attached and at what level, what the setup hook answers,
//! and how a failed start ends. The host performs each action and reports what
//! came of it; the library says what follows.
//!
//! - [`startup`] is the machine that takes the host's reports and answers
//!   with actions.
//! - [`history`] states what holds of every sequence of reports.
//! - [`model`] holds the records in which a file's analysis is handed around.

pub mod history;
pub mod model;
pub mod startup;

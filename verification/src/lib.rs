//! A monitor for a text that its author keeps editing: it notices when the
//! text has changed, keeps the last few versions as the context of a
//! conversation, asks a remote completion service for a short critique of
//! each new version, and tells an observer how each request went.
//!
//! The crate holds the decisions only. Reading the text, waiting, sending the
//! request and showing the critique are left to the program around it, which
//! feeds what happened to [`monitor::MonitorSession::step`] and carries out
//! what that answers.

pub mod change;
pub mod window;
pub mod json;
pub mod completion;
pub mod monitor;
pub mod runs;
pub mod control;

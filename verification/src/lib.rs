//! Supervised-process shell for a local web server.
//!
//! The crate holds the decision logic of a small desktop shell that launches
//! one local web-server child process, derives the URL an embedded browser
//! view should load, probes the server for readiness, and tears the child
//! down on exit.  The surrounding process, network and environment I/O lives
//! in a thin unverified harness; everything here is plain logic with
//! contracts.

pub mod config;
pub mod probe;
pub mod supervisor;

//! Request-planning core for a desktop transcription front end.
//!
//! Every command the GUI layer can invoke — fetch the text behind a URL,
//! submit an audio file for transcription, poll a job, fetch a finished
//! transcript — is one HTTP transaction. This crate holds the decisions
//! those commands make: exactly which request to send (method, URL,
//! headers, body, timeout) and how a transaction's outcome becomes the
//! string result handed back to the caller. The I/O itself — opening the
//! file, driving the request — lives outside, in a thin layer that
//! executes these plans verbatim.
//!
//! Nothing here is shared between invocations: every function maps its
//! arguments (and, for the result, the reported transfer outcome) to a
//! value, so concurrent commands cannot interfere through this crate.

pub mod commands;
pub mod media_type;
pub mod outcome;
pub mod paths;
pub mod request;

//! A transport-free core for querying a video platform's web API.
//!
//! The platform answers every request with a deeply nested JSON tree. This
//! crate decides, for each logical operation (search, video details, channel
//! pages, playlists, comments), which request to send next, whether an answer
//! carries an error signal, and which subtrees of a healthy answer are handed
//! to field extraction. It performs no I/O: the caller sends the requests and
//! feeds the answers back.
//!
//! - [`json`] holds what is assumed of `serde_json`, and nothing else is
//!   assumed anywhere.
//! - [`path`] is the path accessor.
//! - [`signal`] is the error signal detector.
//! - [`exchange`] describes requests, replies and steps.
//! - [`query`] holds the operations.
//! - [`progress`] states what holds of every operation.
//! - [`types`] holds tabs, pages, list items, categories and the results
//!   that an operation assembles.
//! - [`error`] holds the failures.

pub mod error;
pub mod exchange;
pub mod json;
pub mod path;
pub mod progress;
pub mod query;
pub mod signal;
pub mod types;

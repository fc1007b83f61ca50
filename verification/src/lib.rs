//! A verified client core for an issue-tracking service's REST API.
//!
//! The crate covers the layer between the tracker's HTTP+JSON wire format
//! and a command-line front end: query construction, wire-schema encoding
//! and tolerant decoding, issue normalization, and the login/session
//! handshake. Network and terminal I/O stay outside the crate; callers
//! perform each round trip and hand the response body back.

pub mod codec;
pub mod config;
pub mod credential;
pub mod error;
pub mod issue;
pub mod jira;
pub mod jira_data;
pub mod json;
pub mod text;
pub mod urls;

use vstd::prelude::*;

verus! {

/// One HTTP round trip the caller must perform: a POST of `body` to
/// `url`, or a GET of `url` when `body` is `None`.
#[derive(Debug)]
pub struct HttpCall {
    pub url: String,
    pub body: Option<String>,
}

} // verus!

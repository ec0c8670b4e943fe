//! A client for the PushDeer push-notification service.
//!
//! The library plans each request (the URL and the query pairs of one HTTP GET)
//! and decodes the service's reply; issuing the GET is left to the caller.

pub mod client;
pub mod json;
pub mod reply;

pub use client::{MessageKind, PushDeer, PushRequest, DEFAULT_SERVER, PUSH_ENDPOINT};
pub use reply::{is_success, read_reply, result_entry, DecodeFailure, PushError};

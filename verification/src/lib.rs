//! Session authentication and streaming relay for a chat service.
//!
//! The crate holds the decisions of the service: which request is
//! authenticated, what each endpoint answers, and how an upstream reply is
//! relayed to the client and kept as a message. Storage, HTTP and the
//! secrets of the running server are supplied by the caller.
//!
//! - [`models`]: the records of the service and the values that become new
//!   records.
//! - [`utils`]: identifiers, the clock, password hashes and the token codec.
//! - [`middleware`]: the guard that resolves the session of a request.
//! - [`handlers`]: the answers of the endpoints.
//! - [`relay`]: the task that relays an upstream reply and keeps it.
//! - [`json`]: the JSON documents that the service reads.
//! - [`xunfei_ocr`]: the signed request to the formula recognition service
//!   and the text in its answer.

pub mod handlers;
pub mod json;
pub mod middleware;
pub mod models;
pub mod relay;
pub mod utils;
pub mod xunfei_ocr;

//! The rules of an HTTP front-end that answers every request with a fresh
//! child process: what the child is told about the request, what it may say
//! about the response, and the order in which the server opens, reads,
//! closes and signals.
//!
//! The library does no I/O. It computes on plain values and is verified;
//! the calls into other crates are named in the modules that make them.

pub mod assoc;
pub mod harness;
pub mod headers;
pub mod json;
pub mod listener;
pub mod log;
pub mod pipeline;
pub mod query;
pub mod request;
pub mod response;
pub mod supervisor;
pub mod text;
pub mod tls;

pub use request::Request;
pub use response::Response;

//! Request/response correlation for a JSON-RPC file bridge.
//!
//! The library builds protocol requests with unique identifiers, keeps the
//! table of requests that still wait for an answer, matches answers back to
//! their requests and decides when the interactive prompt may go on.

pub mod json;
pub mod text;
pub mod method;
pub mod action;
pub mod request;
pub mod table;
pub mod response;
pub mod walk;
pub mod dispatch;
pub mod session;
pub mod resume;

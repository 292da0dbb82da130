//! A minimal static-file HTTP/1.1 server, as a library of verified decisions.
//!
//! The crate holds everything the server decides: how a request buffer is
//! parsed, how a path is resolved, which content type a file gets, what bytes
//! a response consists of, and how one connection moves through its cycle.
//! Sockets and files stay with the caller.

pub mod connection;
pub mod content_type;
pub mod error;
pub mod live_set;
pub mod model;
pub mod request;
pub mod resolve;
pub mod response;
pub mod text;

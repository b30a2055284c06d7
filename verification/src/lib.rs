//! Core of a small blocking TCP request/response server.
//!
//! The library holds the verified logic of the server: the immutable
//! listener configuration, the per-connection lifecycle state machine,
//! the accept-loop state machine, request decoding, and response
//! computation.  The unverified binary around the library owns the
//! sockets: it performs each `ConnAction` the state machines hand out
//! and reports the outcome of each read, write and accept back in.

pub mod accept;
pub mod config;
pub mod conn;
pub mod decode;
pub mod question;
pub mod text;

//! A from-scratch TCP transport and request/response engine: a socket
//! capability with an in-memory double, a strict left-to-right request
//! parser, a response builder with its wire serialization, a table-based
//! router, the per-connection pipeline, and the worker pool's decision
//! logic — each with a contract that says what it computes, and with the
//! grammar's round-trip and failure laws proved in `laws`.

pub mod assoc;
pub mod common;
pub mod headers;
pub mod laws;
pub mod mem;
pub mod pool;
pub mod request;
pub mod response;
pub mod router;
pub mod server;
pub mod tcp;
pub mod text;

//! Test doubles for an HTTP server framework: an in-memory network stream
//! and a constructor that assembles a framework-shaped request value from a
//! method, a URL, and an in-memory byte body, without opening any socket.

pub mod addr;
pub mod headers;
pub mod method;
pub mod request;
pub mod stream;

pub use stream::MockStream;

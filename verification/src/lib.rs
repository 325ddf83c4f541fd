//! Secure credential vault and OTP gateway.
//!
//! The library keeps a single `Credentials` record (server URL and API token)
//! encrypted at rest, holds the live copy in a lock-free session slot owned by
//! the caller, builds every request of the remote OTP server's REST API, and
//! drives the two-stage QR decoding strategy (local image analysis first,
//! remote decode as fallback).  All file and network I/O stays outside: the
//! functions here turn plain bytes and values into plain bytes and values.

pub mod codec;
pub mod crypto;
pub mod errors;
pub mod gateway;
pub mod keystore;
pub mod models;
pub mod qr;
pub mod screen;
pub mod text;
pub mod vault;

pub use errors::CoreError;

//! What the HTTP routes decide, apart from the transport.

pub mod auth;

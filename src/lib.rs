//! A stream wrapper that tells a separate observer, exactly once, when the
//! consumer lets go of the stream, together with the small routing and
//! formatting rules of the plugin services built on it.
pub mod signal;

pub mod source;
pub mod handle;
pub mod cleanup;
pub mod routes;
pub mod session;

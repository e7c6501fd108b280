//! Bearer-credential verification and tenant/role authorization for an HTTP
//! service: the pieces that decide, the I/O around them stays with the server.

pub mod bytes;
pub mod claims;
pub mod config;
pub mod context;
pub mod credential;
pub mod error;
pub mod gate;
pub mod guard;
pub mod role;

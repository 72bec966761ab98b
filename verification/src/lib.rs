//! Core of a minimal authenticated HTTP ticket service.
//!
//! The verified library holds the request-independent logic: the error
//! taxonomy and its client-facing mapping, auth-token parsing and
//! formatting, the login policy, the two auth middleware stages (context
//! resolver and require-auth gate), the in-memory ticket model controller,
//! the gated ticket route adapters, the error-envelope response mapper and
//! the greeting builders. The HTTP server, cookie transport, JSON
//! serialization and static file serving live outside the library.

pub mod auth;
pub mod ctx;
pub mod error;
pub mod hello;
pub mod login;
pub mod mapper;
pub mod model;
pub mod tickets;
pub mod token;

pub use ctx::Ctx;
pub use error::{ClientError, Error};

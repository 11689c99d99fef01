//! Authentication guard for administrative endpoints.
//!
//! A caller presents a secret in the `x-api-token` header of a request. The
//! guard compares it, through bcrypt, with the one configured administrator
//! secret, and on success hands out a capability that gives access to the
//! data store. Every failure is a typed error with a fixed HTTP status.

pub mod config;
pub mod error;
pub mod guard;
pub mod token;

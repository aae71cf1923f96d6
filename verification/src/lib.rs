//! Authentication and session lifecycle for a content-sharing backend.
//!
//! The heart of the crate is the session subsystem: a token codec that
//! signs and verifies short-lived access credentials, a session store
//! that owns the single-use refresh-token rotation invariant, and a
//! session manager that composes the two.  Around it stand the plain
//! data models of the backend and the verified decision rules of its
//! request handlers.

pub mod claims;
pub mod codec;
pub mod errors;
pub mod hex;
mod host;
pub mod image;
pub mod ip;
pub mod manager;
pub mod models;
pub mod policy;
pub mod store;
pub mod thumbnail;
pub mod transform;
pub mod vm;
pub mod wiki;

//! Credential verification and token lifecycle for a bearer-token
//! authentication service: password hashing, claims construction,
//! HS256 token signing and verification, and the login / register /
//! verify orchestration built on them.
pub mod error;
pub mod hasher;
pub mod claims;
pub mod token;
pub mod auth;
pub mod store;

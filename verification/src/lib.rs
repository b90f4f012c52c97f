//! Credential and session-lifecycle engine.
//!
//! The crate turns a submitted credential (email + password) into a verified
//! identity, issues a short-lived signed access token together with a
//! long-lived revocable refresh token, guards state-changing session
//! operations with a double-submit CSRF check, and keeps an append-only
//! record of authentication events.
//!
//! Storage is reached through repository traits; an in-memory store
//! implements them and is itself verified against the same contracts.

pub mod types;
pub mod error;
pub mod validate;
pub mod dto;
pub mod config;
pub mod crypto;
pub mod models;
pub mod ports;
pub mod store;
pub mod security;
pub mod auth;

//! One-time access keys: a caller that presents the configured credential
//! pair is issued a fresh random key, and any holder of a key can redeem it
//! exactly once.
//!
//! The crate holds the decisions and the state of that lifecycle, each with a
//! machine-checked contract. Transport, rendering and the durable backend sit
//! around it and exchange plain values with it.

pub mod api;
pub mod env_vars;
pub mod errors;
pub mod form;
pub mod key;
pub mod laws;
pub mod models;
pub mod services;
pub mod text;

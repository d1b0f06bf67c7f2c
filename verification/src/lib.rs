//! Credential and session lifecycle core: secret tokens and lookup hashes,
//! password hashing, account / session / one-time-token stores with
//! single-use and expiry semantics, request gates, and the cleanup sweep.

pub mod api;
pub mod api_types;
pub mod cleanup;
pub mod codec;
pub mod config;
pub mod db;
pub mod keys;
pub mod ui;

//! Market API server: the verified core of a small HTTP service that stores
//! key/value resources and files, serves compressed market data per language
//! and refreshes OAuth tokens.

pub mod text;
pub mod server;
pub mod config;
pub mod db;
pub mod fetch;
pub mod service;

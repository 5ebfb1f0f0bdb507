//! The rows of the database tables.

pub mod models;

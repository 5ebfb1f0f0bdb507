//! The server: routing, authentication, the endpoints and their answers,
//! and the market data that it serves.

pub mod error;
pub mod status;
pub mod util;
pub mod models;
pub mod middlewares;
pub mod recover;
pub mod routes;
pub mod store;
pub mod endpoints;
pub mod state;

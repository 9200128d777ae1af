//! Account sign-up, login and bearer-token checks for a small HTTP service,
//! with the request decisions, the connection strings and the token framing
//! stated and proved.

pub mod configuration;
pub mod handlers;
pub mod jwt;
pub mod middlewares;
pub mod models;
pub mod routes;
pub mod text;


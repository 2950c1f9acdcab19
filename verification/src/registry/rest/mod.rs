//! The registry over HTTP: what bodies mean, what is answered, and the routes.
pub mod problem;
pub mod parse;
pub mod dto;
pub mod handlers;
pub mod routes;
pub mod orderby;

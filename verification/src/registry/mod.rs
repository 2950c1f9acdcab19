//! The model registry: who sees which model, and who may change it.
pub mod config;
pub mod security;
pub mod models;
pub mod inheritance;
pub mod error;
pub mod query;
pub mod operation;
pub mod resolve;
pub mod validate;
pub mod single_call;
pub mod model_writes;
pub mod evaluation;
pub mod listing;
pub mod management;
pub mod rows;
pub mod service;
pub mod cache;
pub mod client;
pub mod odata;
pub mod rest;
pub mod laws;

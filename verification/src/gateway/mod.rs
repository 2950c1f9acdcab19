//! The LLM gateway: its wire vocabulary and the demonstration gateway.
pub mod extension;
pub mod content;
pub mod items;
pub mod tools;
pub mod streaming;
pub mod responses;
pub mod async_ops;
pub mod plugin;
pub mod error;
pub mod demo;
pub mod mock_plugin;
pub mod mock_registry;
pub mod demo_queries;
pub mod laws;

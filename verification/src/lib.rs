//! The model registry and the LLM gateway: visibility of models along a tenant
//! chain, administration of providers and models, and the gateway's wire
//! vocabulary. Every rule is stated as a contract and proved.
pub mod text;
pub mod ids;
pub mod registry;
pub mod gateway;
pub mod file_parser;

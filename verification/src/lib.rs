//! Unified integration gateway core: the dispatch engine that resolves a
//! tenant connection and a logical action to an upstream HTTP call, transforms
//! payloads in both directions, and assembles a canonical response envelope.
pub mod cache;
pub mod client;
pub mod config;
pub mod connection;
pub mod crud;
pub mod dispatch;
pub mod error;
pub mod json;
pub mod keys;
pub mod model;
pub mod response;
pub mod routes;
pub mod store;
pub mod strutil;

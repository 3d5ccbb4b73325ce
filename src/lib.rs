//! A dictionary client library: builds authenticated lookup requests, decodes
//! the service's replies, renders them as text and keeps the API key.

pub mod operations;
pub mod json;
pub mod err;
pub mod config;
pub mod client;
pub mod lines;

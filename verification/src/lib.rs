//! Verified core of an Ollama-compatible front end for the T3 Chat backend.
//!
//! The library holds what the service decides and computes: the request
//! plans and replies of the Ollama endpoints, the configuration rules, the
//! route table, and the scraper that reads model definitions out of the
//! T3 Chat front-end bundles.  Network, disk and process plumbing live in
//! the companion application crate.

pub mod text;
pub mod models;
pub mod clock;
pub mod handlers;
pub mod cli;
pub mod config;
pub mod pattern;
pub mod t3_scraper;
pub mod routes;

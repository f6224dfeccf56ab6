//! Data exchanged with Ollama clients.

pub mod ollama;

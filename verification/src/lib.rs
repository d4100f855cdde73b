//! Verified core of a desktop AI chat agent: message models, request and
//! response shaping for model back ends, the agent's tool loop, and the
//! input and output logic of its tools.
pub mod text;
pub mod encoding;
pub mod json;
pub mod error;
pub mod clock;
pub mod session;
pub mod settings;
pub mod model;
pub mod gemini;
pub mod agent;
pub mod agent_api;
pub mod tools;
pub mod store;
pub mod playbook;
pub mod session_table;
pub mod commands;
pub mod config;
pub mod laws;

//! The tools the agent offers: what they read from their arguments and what
//! they answer. What they do to the machine happens around this logic.
pub mod input;
pub mod ssh;
pub mod filesystem;
pub mod shell;
pub mod time;
pub mod clipboard;
pub mod choice;
pub mod http;
pub mod browser;
pub mod schema;

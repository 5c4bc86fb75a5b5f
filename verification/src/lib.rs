//! The verified core of a command-line client for MineChat servers.
//!
//! The library decides; a thin program around it performs the input and
//! output. See the module documentation for what each part decides.

pub mod address;
pub mod chat;
pub mod config;
pub mod network;
pub mod repl;
pub mod session;
pub mod text;

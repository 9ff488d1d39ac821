//! Verified core of an MCP server that drives the `flute` payments CLI.
//!
//! The library holds everything the server decides: configuration parsing,
//! the production write guard, the argv each tool hands to the CLI, and the
//! JSON payloads it answers with. Process spawning and the MCP transport
//! live outside the library.

pub mod config;
pub mod error;
pub mod json;
pub mod server;
pub mod text;
pub mod tools;

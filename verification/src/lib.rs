//! Verified core of a Signal messaging bridge for a tool-calling RPC server.
//!
//! The library holds the logic that is worth proving: building the
//! command lines handed to the external `signal-cli` executable,
//! interpreting the captured output of those subprocesses, the tool and
//! resource registry, and the request dispatch rules. Process spawning,
//! the transport, and configuration loading live outside the library.

pub mod dispatch;
pub mod handler;
pub mod json;
pub mod mcp;
pub mod server;
pub mod settings;
pub mod signal_cli;
pub mod text;
pub mod tools;

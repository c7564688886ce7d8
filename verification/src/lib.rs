//! The decisions of a Model Context Protocol (MCP) client, free of input and output.
//!
//! The library says what to send, what to answer and what to make of what comes back; the program
//! around it owns the sockets, the processes and the clock.

pub mod call;
pub mod cli;
pub mod client;
pub mod env;
pub mod error;
pub mod header;
pub mod http;
pub mod info;
pub mod json;
pub mod service;
pub mod startup;
pub mod stdio;
pub mod text;
pub mod tools;

//! The decisions of a client for the `codex app-server` JSONL protocol, and of an agent that
//! routes its sessions between Grok and a Codex account.

pub mod catalog;
pub mod cli;
pub mod codec;
pub mod connection;
pub mod error;
pub mod handshake;
pub mod json;
pub mod models;
pub mod prompt;
pub mod prompting;
pub mod protocol;
pub mod router;
pub mod rpc;
pub mod server;
pub mod status;
pub mod text;
pub mod tools;
pub mod turn;

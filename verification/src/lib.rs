//! FerrisShare: a verified core for a single-connection file-receiving server.
//!
//! The wire protocol is a line-oriented text grammar interleaved with raw
//! binary payload runs. This crate holds the protocol codec, the
//! per-connection transfer state machine, the command service that applies
//! messages to that state, and the filename rules of the block store.
//! Socket and filesystem I/O live outside the crate and hand plain bytes in.

pub mod command;
pub mod config;
pub mod lex;
pub mod network;
pub mod protocol;
pub mod state;
pub mod storage;
pub mod text;
pub mod utf8;

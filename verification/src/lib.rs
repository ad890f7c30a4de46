//! Proves every Ethereum block with a remote prover and reports the proofs.
//!
//! The crate holds the decisions of the client and of its input servers as
//! functions on plain values: what to do with a new block, which block is
//! proved next, what is published, alerted, stored and cleaned up. The program
//! around it performs the resulting [`action::Action`]s.

pub mod action;
pub mod cliargs;
pub mod codec;
pub mod db;
pub mod duties;
pub mod ig_server;
pub mod input;
pub mod input_server;
pub mod inputgen;
pub mod laws;
pub mod metrics;
pub mod process;
pub mod protocol;
pub mod prove;
pub mod single;
pub mod state;
pub mod telegram;
pub mod text;
pub mod webhook;

//! Core logic of a backend that coordinates two-player wagered matches whose
//! escrow and settlement live on the Solana ledger.
//!
//! The library models the persistent store (matches, finalization jobs and
//! consumed HMAC nonces) as an explicit value, and verifies every state
//! transition against the match/job state machines. Networked pieces (HTTP
//! dispatch, the SQL connection, RPC submission) live outside the library
//! and talk to it through plain values.

pub mod enums;
pub mod error;
pub mod codes;
pub mod bytes;
pub mod parse;
pub mod crypto;
pub mod game_account;
pub mod pda;
pub mod store;
pub mod dto;
pub mod config;
pub mod coordinator;
pub mod auth;
pub mod finalizer;
pub mod watcher;
pub mod laws;

//! Deployment configuration, as plain values. Reading it from the
//! process environment is the embedding program's business.

use vstd::prelude::*;

verus! {

/// Everything the service is configured with.
#[derive(Debug, Clone)]
pub struct Config {
    pub app_bind_addr: String,
    pub database_url: String,
    pub solana_rpc_url: String,
    pub program_id: String,
    pub authority_pubkey: String,
    pub authority_keypair_path: String,
    pub internal_hmac_secret: String,
    pub join_timeout_seconds: i64,
    pub settle_timeout_seconds: i64,
    pub finalizer_poll_ms: u64,
    pub timeout_watcher_poll_ms: u64,
}

} // verus!

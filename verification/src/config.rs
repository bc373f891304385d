//! Plain configuration values for the surrounding application.
//!
//! These are constructed once at startup and passed by reference to every
//! component that needs them; the core holds no hidden global state.
use vstd::prelude::*;

verus! {

/// Connection endpoints and the API key for the RPC provider.
#[derive(Debug, Clone)]
pub struct HeliusConfig {
    /// The provider API key.
    pub api_key: String,
    /// The HTTP RPC endpoint.
    pub rpc_endpoint: String,
    /// The websocket endpoint.
    pub ws_endpoint: String,
}

/// Transaction execution limits and retry behaviour.
#[derive(Debug, Clone)]
pub struct ExecutionConfig {
    /// Priority fee used under normal load.
    pub base_priority_fee: u64,
    /// Multiplier applied to the base fee under high congestion.
    pub high_congestion_multiplier: u64,
    /// Upper bound on the priority fee.
    pub max_priority_fee: u64,
    /// How many times a failed submission is retried.
    pub max_retries: u32,
    /// Delay between retries, in milliseconds.
    pub retry_delay_ms: u64,
}

/// What the monitoring side watches and where it keeps its data.
#[derive(Debug, Clone)]
pub struct MonitoringConfig {
    /// Public keys of the wallets being watched.
    pub target_wallets: Vec<String>,
    /// Refresh interval of the dashboard, in milliseconds.
    pub dashboard_refresh_ms: u64,
    /// Path of the database file.
    pub database_path: String,
}

} // verus!

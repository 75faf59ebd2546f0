//! Verified core of a Taiko preconfirmation node: configuration parsing,
//! RPC URL classification, protocol parameters, debug-trace error extraction
//! and the proposal bookkeeping of the proposal manager.
pub mod text;
pub mod trace;
pub mod parse;
pub mod rpc_url;
pub mod env;
pub mod settings;
pub mod config;
pub mod protocol_config;
pub mod proposal_manager;
pub mod reanchor;
pub mod node_setup;
pub mod laws;

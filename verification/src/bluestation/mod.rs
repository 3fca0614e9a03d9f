//! Configuration and shared state of the base station.
pub mod aie_state;
pub mod config;
pub mod gateways;
pub mod key_provider;
pub mod laws;
pub mod network_broadcast;
pub mod parsing;
pub mod rollover;
pub mod sec_cell;
pub mod sec_swmi;
pub mod state;
pub mod subscribers;

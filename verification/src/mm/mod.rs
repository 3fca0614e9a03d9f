//! Mobility management: registration, authentication, groups and energy economy.
pub mod clients;
pub mod exchange_laws;
pub mod group_laws;
pub mod laws;
pub mod mm_bs;
pub mod model;
pub mod pdu;
pub mod pending;
pub mod registration_laws;

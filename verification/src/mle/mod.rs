//! The mobile link entity.
pub mod broadcast;
pub mod laws;
pub mod mle_bs;

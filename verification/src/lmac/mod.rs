//! The lower MAC.
pub mod rm3014;
pub mod lmac_bs;

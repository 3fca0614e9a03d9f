//! Verified core of a TETRA base station.
//!
//! The radio, the connection to the central SwMI and the encoders of single PDUs
//! are outside: they hand in plain values and carry out what is returned.
pub mod aie;
pub mod bitbuffer;
pub mod bluestation;
pub mod cmce;
pub mod crypto;
pub mod lmac;
pub mod mle;
pub mod mm;
pub mod net_swmi;
pub mod store;
pub mod swmi;
pub mod table;
pub mod tdma;

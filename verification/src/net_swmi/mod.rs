//! The link to the central SwMI.
pub mod certificates;
pub mod entity;
pub mod laws;
pub mod profile;
pub mod protocol;
pub mod worker;

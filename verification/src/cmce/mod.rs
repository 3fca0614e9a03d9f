//! Circuit mode control entity: call control and short data.
pub mod cc_bs;
pub mod cc_events;
pub mod cc_laws;
pub mod cc_model;
pub mod cc_procedures;
pub mod channel_laws;
pub mod circuit;
pub mod dispatch;
pub mod floor_laws;
pub mod group_call_laws;
pub mod message_laws;
pub mod pdu;
pub mod private_call_laws;
pub mod sds_bs;
pub mod sds_laws;
pub mod ss_bs;
pub mod ss_laws;

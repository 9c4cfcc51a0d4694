//! Address resolution: finding the link-layer address that answers for a
//! network-layer address.

pub mod cache;
pub mod options;
pub mod pdu;
pub mod peer;

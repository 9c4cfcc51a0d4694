//! Protocol engines and the addresses they speak of.

pub mod arp;
pub mod ethernet2;
pub mod ipv4;

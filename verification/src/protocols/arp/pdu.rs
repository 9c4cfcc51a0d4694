//! The address-resolution message, as the engine sees it: parsed, with no
//! byte layout.

use crate::protocols::ethernet2::MacAddress;
use crate::protocols::ipv4::Ipv4Addr;
use vstd::prelude::*;

verus! {

/// What a message asks for.
#[derive(Clone, Copy, Debug, PartialEq, Eq, Structural)]
pub enum ArpOp {
    /// "Who has the target address? Tell the sender."
    ArpRequest,
    /// "The sender has the address that was asked for."
    ArpReply,
}

/// One address-resolution message.
#[derive(Clone, Copy, Debug, PartialEq, Eq)]
pub struct ArpPdu {
    pub op: ArpOp,
    pub sender_link_addr: MacAddress,
    pub sender_ip_addr: Ipv4Addr,
    pub target_link_addr: MacAddress,
    pub target_ip_addr: Ipv4Addr,
}

impl ArpPdu {
    /// The request by which `sender` asks the whole link who has `target`.
    pub open spec fn spec_request(
        sender_link_addr: MacAddress,
        sender_ip_addr: Ipv4Addr,
        target: Ipv4Addr,
    ) -> Self {
        ArpPdu {
            op: ArpOp::ArpRequest,
            sender_link_addr,
            sender_ip_addr,
            target_link_addr: MacAddress { octets: [0xff, 0xff, 0xff, 0xff, 0xff, 0xff] },
            target_ip_addr: target,
        }
    }

    /// The reply by which `sender` answers `request`: addressed back to
    /// whoever sent the request.
    pub open spec fn spec_reply(
        sender_link_addr: MacAddress,
        sender_ip_addr: Ipv4Addr,
        request: ArpPdu,
    ) -> Self {
        ArpPdu {
            op: ArpOp::ArpReply,
            sender_link_addr,
            sender_ip_addr,
            target_link_addr: request.sender_link_addr,
            target_ip_addr: request.sender_ip_addr,
        }
    }

    /// The request by which `sender` asks the whole link who has `target`.
    pub fn request(sender_link_addr: MacAddress, sender_ip_addr: Ipv4Addr, target: Ipv4Addr) -> (pdu:
        Self)
        ensures
            pdu == Self::spec_request(sender_link_addr, sender_ip_addr, target),
    {
        ArpPdu {
            op: ArpOp::ArpRequest,
            sender_link_addr,
            sender_ip_addr,
            target_link_addr: MacAddress { octets: [0xff, 0xff, 0xff, 0xff, 0xff, 0xff] },
            target_ip_addr: target,
        }
    }

    /// The reply by which `sender` answers `request`.
    pub fn reply(sender_link_addr: MacAddress, sender_ip_addr: Ipv4Addr, request: &ArpPdu) -> (pdu:
        Self)
        ensures
            pdu == Self::spec_reply(sender_link_addr, sender_ip_addr, *request),
    {
        ArpPdu {
            op: ArpOp::ArpReply,
            sender_link_addr,
            sender_ip_addr,
            target_link_addr: request.sender_link_addr,
            target_ip_addr: request.sender_ip_addr,
        }
    }
}

} // verus!

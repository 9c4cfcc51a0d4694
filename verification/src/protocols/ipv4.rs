//! Network-layer addresses.

use vstd::prelude::*;

verus! {

/// An IPv4 address, held as the 32-bit number that its four octets spell,
/// most significant octet first.
#[derive(Clone, Copy, Debug, PartialEq, Eq, Hash, Structural)]
pub struct Ipv4Addr {
    pub bits: u32,
}

impl Ipv4Addr {
    /// The number that the octets `a.b.c.d` spell.
    pub open spec fn spec_bits(a: u8, b: u8, c: u8, d: u8) -> int {
        a * 0x100_0000 + b * 0x1_0000 + c * 0x100 + d
    }

    /// The four octets of the address, in the order in which it is written.
    pub open spec fn spec_octets(self) -> Seq<u8> {
        seq![
            (self.bits / 0x100_0000) as u8,
            (self.bits / 0x1_0000 % 0x100) as u8,
            (self.bits / 0x100 % 0x100) as u8,
            (self.bits % 0x100) as u8,
        ]
    }

    /// `0.0.0.0`, which names no host.
    pub open spec fn spec_is_unspecified(self) -> bool {
        self.bits == 0
    }

    /// `255.255.255.255`, which names every host on the link.
    pub open spec fn spec_is_broadcast(self) -> bool {
        self.bits == 0xffff_ffff
    }

    /// The number that four octets spell has those four octets.
    pub proof fn lemma_octets_of_bits(a: u8, b: u8, c: u8, d: u8)
        ensures
            0 <= Self::spec_bits(a, b, c, d) <= 0xffff_ffff,
            Self::spec_bits(a, b, c, d) / 0x100_0000 == a,
            Self::spec_bits(a, b, c, d) / 0x1_0000 % 0x100 == b,
            Self::spec_bits(a, b, c, d) / 0x100 % 0x100 == c,
            Self::spec_bits(a, b, c, d) % 0x100 == d,
    {
        assert(Self::spec_bits(a, b, c, d) / 0x100 == a * 0x1_0000 + b * 0x100 + c);
    }

    /// The address `a.b.c.d`.
    pub fn new(a: u8, b: u8, c: u8, d: u8) -> (addr: Self)
        ensures
            addr.bits == Self::spec_bits(a, b, c, d),
            addr.spec_octets() == seq![a, b, c, d],
    {
        let bits: u32 = (a as u32) * 0x100_0000 + (b as u32) * 0x1_0000 + (c as u32) * 0x100 + (
        d as u32);
        let addr = Ipv4Addr { bits };
        proof {
            Self::lemma_octets_of_bits(a, b, c, d);
        }
        addr
    }

    /// The four octets of the address, in the order in which it is written.
    pub fn octets(&self) -> (octets: [u8; 4])
        ensures
            octets@ == self.spec_octets(),
            Self::spec_bits(octets[0], octets[1], octets[2], octets[3]) == self.bits,
    {
        [
            (self.bits / 0x100_0000) as u8,
            (self.bits / 0x1_0000 % 0x100) as u8,
            (self.bits / 0x100 % 0x100) as u8,
            (self.bits % 0x100) as u8,
        ]
    }

    /// Whether this is `0.0.0.0`.
    pub fn is_unspecified(&self) -> (unspecified: bool)
        ensures
            unspecified == self.spec_is_unspecified(),
    {
        self.bits == 0
    }

    /// Whether this is `255.255.255.255`.
    pub fn is_broadcast(&self) -> (broadcast: bool)
        ensures
            broadcast == self.spec_is_broadcast(),
    {
        self.bits == 0xffff_ffff
    }
}

} // verus!

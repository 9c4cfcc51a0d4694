//! Link-layer addresses.

use vstd::prelude::*;

verus! {

/// A 48-bit link-layer address, most significant octet first.
#[derive(Clone, Copy, Debug, PartialEq, Eq, Hash)]
pub struct MacAddress {
    pub octets: [u8; 6],
}

impl MacAddress {
    /// Every octet is `byte`.
    pub open spec fn filled_with(self, byte: u8) -> bool {
        forall|i: int| 0 <= i < 6 ==> self.octets[i] == byte
    }

    /// The address `00:00:00:00:00:00`, which stands for "none".
    pub open spec fn spec_is_nil(self) -> bool {
        self.filled_with(0x00)
    }

    /// The address `ff:ff:ff:ff:ff:ff`, which every station listens to.
    pub open spec fn spec_is_broadcast(self) -> bool {
        self.filled_with(0xff)
    }

    /// The address with the given octets.
    pub fn new(octets: [u8; 6]) -> (addr: Self)
        ensures
            addr.octets == octets,
    {
        MacAddress { octets }
    }

    /// The nil address.
    pub fn nil() -> (addr: Self)
        ensures
            addr.spec_is_nil(),
    {
        MacAddress { octets: [0x00, 0x00, 0x00, 0x00, 0x00, 0x00] }
    }

    /// The broadcast address.
    pub fn broadcast() -> (addr: Self)
        ensures
            addr.spec_is_broadcast(),
    {
        MacAddress { octets: [0xff, 0xff, 0xff, 0xff, 0xff, 0xff] }
    }

    /// The octets of the address.
    pub fn to_array(&self) -> (octets: [u8; 6])
        ensures
            octets == self.octets,
    {
        self.octets
    }

    /// Whether this is the nil address.
    pub fn is_nil(&self) -> (nil: bool)
        ensures
            nil == self.spec_is_nil(),
    {
        self.all_octets_are(0x00)
    }

    /// Whether this is the broadcast address.
    pub fn is_broadcast(&self) -> (broadcast: bool)
        ensures
            broadcast == self.spec_is_broadcast(),
    {
        self.all_octets_are(0xff)
    }

    /// Whether every octet is `byte`.
    fn all_octets_are(&self, byte: u8) -> (all: bool)
        ensures
            all == self.filled_with(byte),
    {
        let mut i: usize = 0;
        while i < 6
            invariant
                i <= 6,
                forall|j: int| 0 <= j < i ==> self.octets[j] == byte,
            decreases 6 - i,
        {
            if self.octets[i] != byte {
                return false;
            }
            i += 1;
        }
        true
    }
}

} // verus!

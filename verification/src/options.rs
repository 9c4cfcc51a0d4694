//! What a node of the stack is configured with.

use crate::protocols::arp::options::ArpOptions;
use crate::protocols::ethernet2::MacAddress;
use crate::protocols::ipv4::Ipv4Addr;
use rand::rngs::ThreadRng;
use rand::{thread_rng, Rng};
use vstd::prelude::*;

verus! {

/// What the node's random number generator starts from.
pub type Seed = [u8; 32];

/// `rand::rngs::ThreadRng`, the generator that each thread has for itself.
/// Nothing inside it is visible here.
#[verifier::external_type_specification]
#[verifier::external_body]
pub struct ExThreadRng(ThreadRng);

/// `rand::thread_rng` hands out the calling thread's generator, which the
/// system has seeded. Nothing is claimed of it.
pub assume_specification[ thread_rng ]() -> (rng: ThreadRng);

/// `Rng::fill` overwrites every octet of `seed` with random data. Which
/// data is not for a contract to say: no clause speaks of it. The call
/// panics where the generator fails, which no argument decides.
#[verifier::external_body]
fn fill_seed(rng: &mut ThreadRng, seed: &mut Seed) {
    rng.fill(&mut seed[..])
}

/// The configuration of one node.
#[derive(Clone, Copy, Debug)]
pub struct Options {
    pub arp: ArpOptions,
    pub my_ipv4_addr: Ipv4Addr,
    pub my_link_addr: MacAddress,
    pub rng_seed: Seed,
}

impl Default for Options {
    /// A node that has not been given its addresses yet: they are the
    /// unspecified address and the nil address. The seed is random.
    fn default() -> (options: Self)
        ensures
            options.arp == ArpOptions::default_options(),
            options.my_ipv4_addr.spec_is_unspecified(),
            options.my_link_addr.spec_is_nil(),
    {
        let mut rng_seed: Seed = [0u8; 32];
        let mut rng = thread_rng();
        fill_seed(&mut rng, &mut rng_seed);
        Options {
            arp: ArpOptions::default(),
            my_ipv4_addr: Ipv4Addr::new(0, 0, 0, 0),
            my_link_addr: MacAddress::nil(),
            rng_seed,
        }
    }
}

impl Options {
    /// Whether a node can be reached under `addr`: it cannot under the
    /// address that names no host, nor under the one that names them all.
    pub open spec fn is_host_addr(addr: Ipv4Addr) -> bool {
        !addr.spec_is_unspecified() && !addr.spec_is_broadcast()
    }

    /// Whether a station can have `addr` for its own: it cannot have the
    /// nil address, nor the one that every station listens to.
    pub open spec fn is_station_addr(addr: MacAddress) -> bool {
        !addr.spec_is_nil() && !addr.spec_is_broadcast()
    }

    /// The same options, with `value` for address resolution.
    pub fn arp(self, value: ArpOptions) -> (options: Self)
        ensures
            options == (Options { arp: value, ..self }),
    {
        let mut options = self;
        options.arp = value;
        options
    }

    /// The same options, for a node with the network address `value`.
    pub fn my_ipv4_addr(self, value: Ipv4Addr) -> (options: Self)
        requires
            Self::is_host_addr(value),
        ensures
            options == (Options { my_ipv4_addr: value, ..self }),
    {
        let mut options = self;
        options.my_ipv4_addr = value;
        options
    }

    /// The same options, for a node with the link address `value`.
    pub fn my_link_addr(self, value: MacAddress) -> (options: Self)
        requires
            Self::is_station_addr(value),
        ensures
            options == (Options { my_link_addr: value, ..self }),
    {
        let mut options = self;
        options.my_link_addr = value;
        options
    }

    /// The same options, with `value` for the seed.
    pub fn rng_seed(self, value: Seed) -> (options: Self)
        ensures
            options == (Options { rng_seed: value, ..self }),
    {
        let mut options = self;
        options.rng_seed = value;
        options
    }

    /// Draws a new seed at random and leaves the rest as it is.
    pub fn randomize_rng_seed(&mut self)
        ensures
            final(self).arp == old(self).arp,
            final(self).my_ipv4_addr == old(self).my_ipv4_addr,
            final(self).my_link_addr == old(self).my_link_addr,
    {
        let mut rng = thread_rng();
        fill_seed(&mut rng, &mut self.rng_seed);
    }
}

} // verus!

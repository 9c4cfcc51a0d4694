use catnip::options::Options;
use catnip::protocols::arp::options::{ArpOptions, DEFAULT_REQUEST_TIMEOUT, DEFAULT_RETRY_COUNT};
use catnip::protocols::ethernet2::MacAddress;
use catnip::protocols::ipv4::Ipv4Addr;

#[test]
fn arp_options_default_to_twenty_seconds_and_five_retries() {
    let options = ArpOptions::default();
    assert_eq!(options.request_timeout, 20_000_000_000);
    assert_eq!(options.retry_count, 5);
    assert_eq!(DEFAULT_REQUEST_TIMEOUT, 20_000_000_000);
    assert_eq!(DEFAULT_RETRY_COUNT, 5);
}

#[test]
fn arp_options_builders_change_one_field_each() {
    let options = ArpOptions::default().request_timeout(1_000_000_000);
    assert_eq!(options, ArpOptions { request_timeout: 1_000_000_000, retry_count: 5 });
    let options = options.retry_count(2);
    assert_eq!(options, ArpOptions { request_timeout: 1_000_000_000, retry_count: 2 });
    let options = options.retry_count(0).request_timeout(0);
    assert_eq!(options, ArpOptions { request_timeout: 0, retry_count: 0 });
}

#[test]
fn default_options_have_no_addresses() {
    let options = Options::default();
    assert_eq!(options.arp, ArpOptions::default());
    assert_eq!(options.my_ipv4_addr, Ipv4Addr::new(0, 0, 0, 0));
    assert!(options.my_ipv4_addr.is_unspecified());
    assert_eq!(options.my_link_addr, MacAddress::nil());
    assert!(options.my_link_addr.is_nil());
}

#[test]
fn default_options_have_a_random_seed() {
    let a = Options::default();
    let b = Options::default();
    assert_ne!(a.rng_seed, [0u8; 32]);
    assert_ne!(a.rng_seed, b.rng_seed);
}

#[test]
fn builders_change_one_field_each() {
    let ip = Ipv4Addr::new(192, 168, 1, 1);
    let mac = MacAddress::new([0x12, 0x23, 0x45, 0x67, 0x89, 0xab]);
    let arp = ArpOptions::default().retry_count(2).request_timeout(1_000_000_000);
    let seed = [7u8; 32];
    assert!(!ip.is_unspecified() && !ip.is_broadcast());
    assert!(!mac.is_nil() && !mac.is_broadcast());

    let options = Options::default().rng_seed(seed);
    assert_eq!(options.rng_seed, seed);
    assert_eq!(options.arp, ArpOptions::default());

    let options = options.my_ipv4_addr(ip);
    assert_eq!(options.my_ipv4_addr, ip);
    assert_eq!(options.rng_seed, seed);
    assert!(options.my_link_addr.is_nil());

    let options = options.my_link_addr(mac);
    assert_eq!(options.my_link_addr, mac);
    assert_eq!(options.my_ipv4_addr, ip);

    let options = options.arp(arp);
    assert_eq!(options.arp, arp);
    assert_eq!(options.my_link_addr, mac);
    assert_eq!(options.my_ipv4_addr, ip);
    assert_eq!(options.rng_seed, seed);
}

#[test]
fn randomize_draws_a_new_seed_and_keeps_the_rest() {
    let ip = Ipv4Addr::new(10, 0, 0, 7);
    let mac = MacAddress::new([2, 0, 0, 0, 0, 7]);
    let mut options = Options::default().rng_seed([0u8; 32]).my_ipv4_addr(ip).my_link_addr(mac);
    options.randomize_rng_seed();
    assert_ne!(options.rng_seed, [0u8; 32]);
    assert_eq!(options.my_ipv4_addr, ip);
    assert_eq!(options.my_link_addr, mac);
    assert_eq!(options.arp, ArpOptions::default());
    let first = options.rng_seed;
    options.randomize_rng_seed();
    assert_ne!(options.rng_seed, first);
}

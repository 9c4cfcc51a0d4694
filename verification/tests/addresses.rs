use catnip::fail::Fail;
use catnip::protocols::arp::pdu::{ArpOp, ArpPdu};
use catnip::protocols::ethernet2::MacAddress;
use catnip::protocols::ipv4::Ipv4Addr;

#[test]
fn ipv4_address_is_the_number_its_octets_spell() {
    assert_eq!(Ipv4Addr::new(192, 168, 1, 1).bits, 0xc0a8_0101);
    assert_eq!(Ipv4Addr::new(0, 0, 0, 0).bits, 0);
    assert_eq!(Ipv4Addr::new(255, 255, 255, 255).bits, 0xffff_ffff);
    assert_eq!(Ipv4Addr::new(1, 2, 3, 4).bits, 0x0102_0304);
}

#[test]
fn ipv4_address_gives_its_octets_back() {
    assert_eq!(Ipv4Addr::new(192, 168, 1, 3).octets(), [192, 168, 1, 3]);
    assert_eq!(Ipv4Addr { bits: 0x0a00_00fe }.octets(), [10, 0, 0, 254]);
    assert_eq!(Ipv4Addr { bits: 0xffff_ffff }.octets(), [255, 255, 255, 255]);
}

#[test]
fn ipv4_special_addresses() {
    assert!(Ipv4Addr::new(0, 0, 0, 0).is_unspecified());
    assert!(!Ipv4Addr::new(0, 0, 0, 1).is_unspecified());
    assert!(Ipv4Addr::new(255, 255, 255, 255).is_broadcast());
    assert!(!Ipv4Addr::new(255, 255, 255, 254).is_broadcast());
    assert!(!Ipv4Addr::new(192, 168, 1, 1).is_unspecified());
    assert!(!Ipv4Addr::new(192, 168, 1, 1).is_broadcast());
}

#[test]
fn mac_address_keeps_its_octets() {
    let addr = MacAddress::new([0x12, 0x23, 0x45, 0x67, 0x89, 0xab]);
    assert_eq!(addr.to_array(), [0x12, 0x23, 0x45, 0x67, 0x89, 0xab]);
    assert_eq!(addr, MacAddress { octets: [0x12, 0x23, 0x45, 0x67, 0x89, 0xab] });
}

#[test]
fn mac_special_addresses() {
    assert_eq!(MacAddress::nil().to_array(), [0; 6]);
    assert_eq!(MacAddress::broadcast().to_array(), [0xff; 6]);
    assert!(MacAddress::nil().is_nil());
    assert!(!MacAddress::nil().is_broadcast());
    assert!(MacAddress::broadcast().is_broadcast());
    assert!(!MacAddress::broadcast().is_nil());
    assert!(!MacAddress::new([0, 0, 0, 0, 0, 1]).is_nil());
    assert!(!MacAddress::new([1, 0, 0, 0, 0, 0]).is_nil());
    assert!(!MacAddress::new([0xff, 0xff, 0xff, 0xff, 0xff, 0xfe]).is_broadcast());
    assert!(!MacAddress::new([0xfe, 0xff, 0xff, 0xff, 0xff, 0xff]).is_broadcast());
}

#[test]
fn request_is_addressed_to_the_whole_link() {
    let sender_mac = MacAddress::new([0x12, 0x23, 0x45, 0x67, 0x89, 0xab]);
    let sender_ip = Ipv4Addr::new(192, 168, 1, 1);
    let target = Ipv4Addr::new(192, 168, 1, 3);
    let request = ArpPdu::request(sender_mac, sender_ip, target);
    assert_eq!(request.op, ArpOp::ArpRequest);
    assert_eq!(request.sender_link_addr, sender_mac);
    assert_eq!(request.sender_ip_addr, sender_ip);
    assert_eq!(request.target_link_addr, MacAddress::broadcast());
    assert_eq!(request.target_ip_addr, target);
}

#[test]
fn reply_is_addressed_to_the_sender_of_the_request() {
    let asker_mac = MacAddress::new([0x12, 0x23, 0x45, 0x67, 0x89, 0xab]);
    let asker_ip = Ipv4Addr::new(192, 168, 1, 1);
    let owner_mac = MacAddress::new([0xef, 0xcd, 0xab, 0x89, 0x67, 0x45]);
    let owner_ip = Ipv4Addr::new(192, 168, 1, 3);
    let request = ArpPdu::request(asker_mac, asker_ip, owner_ip);
    let reply = ArpPdu::reply(owner_mac, owner_ip, &request);
    assert_eq!(
        reply,
        ArpPdu {
            op: ArpOp::ArpReply,
            sender_link_addr: owner_mac,
            sender_ip_addr: owner_ip,
            target_link_addr: asker_mac,
            target_ip_addr: asker_ip,
        }
    );
}

#[test]
fn only_a_timeout_is_a_fault() {
    assert!(!Fail::Ignored.is_fault());
    assert!(Fail::Timeout.is_fault());
}

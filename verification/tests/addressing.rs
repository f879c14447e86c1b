use hermit_sys::address::{
    address_or_illegal, address_to_assign, cidr_eq, ipv4_is_unspecified, parse_remote_address,
    take_dhcp_offer,
    IpAddr, Ipv4Cidr,
};
use hermit_sys::endpoint::{connect_target, prepare_connect, start_endpoint_from, LocalEndpoints};
use hermit_sys::state::NetError;

fn v4(a: u8, b: u8, c: u8, d: u8, prefix_len: u8) -> Ipv4Cidr {
    Ipv4Cidr { address: [a, b, c, d], prefix_len }
}

#[test]
fn parses_ipv4_text() {
    match parse_remote_address(b"10.0.2.15") {
        Ok(IpAddr::Ipv4(o)) => assert_eq!(o, [10, 0, 2, 15]),
        other => panic!("unexpected {:?}", other),
    }
}

#[test]
fn parses_ipv6_text() {
    match parse_remote_address(b"fe80::1") {
        Ok(IpAddr::Ipv6(o)) => {
            let mut expected = [0u8; 16];
            expected[0] = 0xfe;
            expected[1] = 0x80;
            expected[15] = 1;
            assert_eq!(o, expected);
        }
        other => panic!("unexpected {:?}", other),
    }
}

#[test]
fn refuses_text_that_is_no_address() {
    assert!(matches!(parse_remote_address(b"example.org"), Err(NetError::Illegal)));
    assert!(matches!(parse_remote_address(b"10.0.0.1 "), Err(NetError::Illegal)));
    assert!(matches!(parse_remote_address(b""), Err(NetError::Illegal)));
}

#[test]
fn refuses_bytes_that_are_not_utf8() {
    assert!(matches!(parse_remote_address(&[0xff, 0xfe, 0x31]), Err(NetError::Illegal)));
}

#[test]
fn failed_parse_is_illegal() {
    assert!(matches!(address_or_illegal(None), Err(NetError::Illegal)));
    assert!(matches!(address_or_illegal(Some(IpAddr::Unspecified)), Ok(IpAddr::Unspecified)));
}

#[test]
fn start_endpoint_is_counter_mod_65535() {
    assert_eq!(start_endpoint_from(0), 0);
    assert_eq!(start_endpoint_from(65534), 65534);
    assert_eq!(start_endpoint_from(65535), 0);
    assert_eq!(start_endpoint_from(65536), 1);
    assert_eq!(start_endpoint_from(u64::MAX), (u64::MAX % 65535) as u16);
}

#[test]
fn ports_are_consecutive_and_wrap() {
    let mut ports = LocalEndpoints::starting_at(65534);
    assert_eq!(ports.take(), 65534);
    assert_eq!(ports.take(), 65535);
    assert_eq!(ports.take(), 0);
    assert_eq!(ports.take(), 1);
    ports.restart_at(40000);
    assert_eq!(ports.take(), 40000);
}

#[test]
fn connect_takes_a_port_only_for_a_valid_address() {
    let mut ports = LocalEndpoints::starting_at(5000);
    let t = prepare_connect(b"192.168.1.7", 80, &mut ports).unwrap();
    assert!(matches!(t.remote, IpAddr::Ipv4([192, 168, 1, 7])));
    assert_eq!(t.remote_port, 80);
    assert_eq!(t.local_port, 5000);
    assert!(matches!(prepare_connect(b"nonsense", 80, &mut ports), Err(NetError::Illegal)));
    let t2 = prepare_connect(b"192.168.1.7", 443, &mut ports).unwrap();
    assert_eq!(t2.local_port, 5001);
    assert_eq!(t2.remote_port, 443);
}

#[test]
fn connect_target_passes_errors_on() {
    let mut ports = LocalEndpoints::starting_at(7);
    assert!(matches!(
        connect_target(Err(NetError::Unaddressable), 1, &mut ports),
        Err(NetError::Unaddressable)
    ));
    assert_eq!(ports.take(), 7);
}

#[test]
fn unspecified_range_is_zero_first_octet() {
    assert!(ipv4_is_unspecified([0, 0, 0, 0]));
    assert!(ipv4_is_unspecified([0, 1, 2, 3]));
    assert!(!ipv4_is_unspecified([10, 0, 0, 0]));
}

#[test]
fn cidr_equality() {
    assert!(cidr_eq(&v4(10, 0, 2, 15, 24), &v4(10, 0, 2, 15, 24)));
    assert!(!cidr_eq(&v4(10, 0, 2, 15, 24), &v4(10, 0, 2, 15, 16)));
    assert!(!cidr_eq(&v4(10, 0, 2, 15, 24), &v4(10, 0, 2, 16, 24)));
}

#[test]
fn dhcp_assignment_rules() {
    let current = v4(0, 0, 0, 0, 0);
    let offered = v4(10, 0, 2, 15, 24);
    let taken = address_to_assign(&current, Some(offered)).unwrap();
    assert!(cidr_eq(&taken, &offered));
    // the same offer again changes nothing
    assert!(address_to_assign(&taken, Some(offered)).is_none());
    // no address offered
    assert!(address_to_assign(&current, None).is_none());
    // an unspecified address is never taken
    assert!(address_to_assign(&offered, Some(v4(0, 9, 9, 9, 8))).is_none());
}

#[test]
fn dhcp_offer_is_remembered() {
    let mut current = v4(0, 0, 0, 0, 0);
    let offered = v4(192, 168, 0, 9, 24);
    let taken = take_dhcp_offer(&mut current, Some(offered)).unwrap();
    assert!(cidr_eq(&taken, &offered));
    assert!(cidr_eq(&current, &offered));
    assert!(take_dhcp_offer(&mut current, Some(offered)).is_none());
    assert!(cidr_eq(&current, &offered));
    assert!(take_dhcp_offer(&mut current, None).is_none());
    assert!(cidr_eq(&current, &offered));
}

use sway_playground::client_ip::{
    client_ip_or_loopback, extract_client_ip, forwarded_for_candidate, real_ip_candidate,
    IpAddress, LOOPBACK_V4,
};

const A: IpAddress = IpAddress::V4(0xcb00_7105);
const B: IpAddress = IpAddress::V4(0x0a00_0001);
const C: IpAddress = IpAddress::V6(1);

#[test]
fn forwarded_for_wins_over_real_ip() {
    assert_eq!(extract_client_ip(Some(A), Some(B), Some(C)), Some(A));
}

#[test]
fn real_ip_used_when_forwarded_for_unusable() {
    assert_eq!(extract_client_ip(None, Some(B), Some(C)), Some(B));
}

#[test]
fn peer_address_used_without_headers() {
    assert_eq!(extract_client_ip(None, None, Some(C)), Some(C));
    assert_eq!(extract_client_ip(None, None, None), None);
}

#[test]
fn loopback_when_nothing_is_known() {
    assert_eq!(client_ip_or_loopback(None, None, None), IpAddress::V4(LOOPBACK_V4));
    assert_eq!(LOOPBACK_V4, u32::from_be_bytes([127, 0, 0, 1]));
    assert_eq!(client_ip_or_loopback(None, Some(B), None), B);
}

#[test]
fn forwarded_for_takes_first_item_trimmed() {
    assert_eq!(forwarded_for_candidate(" 203.0.113.5 , 10.0.0.1"), "203.0.113.5");
    assert_eq!(forwarded_for_candidate("198.51.100.7"), "198.51.100.7");
    assert_eq!(forwarded_for_candidate(",10.0.0.1"), "");
    assert_eq!(forwarded_for_candidate(""), "");
}

#[test]
fn real_ip_is_trimmed() {
    assert_eq!(real_ip_candidate("\t 192.0.2.1  "), "192.0.2.1");
    assert_eq!(real_ip_candidate("192.0.2.1"), "192.0.2.1");
}

#[test]
fn address_keys_keep_families_apart() {
    assert_eq!(IpAddress::V4(5).key(), (4, 5));
    assert_eq!(IpAddress::V6(5).key(), (6, 5));
}

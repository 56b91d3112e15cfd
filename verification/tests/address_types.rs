use dhcp_client::addr::{
    netmask_prefix_len, same_ip, same_ipv6, IpAddress, Ipv4Address, Ipv6Address, MacAddress,
};

fn ip(a: u8, b: u8, c: u8, d: u8) -> Ipv4Address {
    Ipv4Address { a, b, c, d }
}

#[test]
fn netmask_prefix_lengths() {
    assert_eq!(netmask_prefix_len(&ip(255, 255, 255, 0)), Some(24));
    assert_eq!(netmask_prefix_len(&ip(255, 255, 252, 0)), Some(22));
    assert_eq!(netmask_prefix_len(&ip(255, 255, 255, 255)), Some(32));
    assert_eq!(netmask_prefix_len(&ip(0, 0, 0, 0)), Some(0));
    assert_eq!(netmask_prefix_len(&ip(128, 0, 0, 0)), Some(1));
}

#[test]
fn non_contiguous_masks_have_no_prefix_length() {
    assert_eq!(netmask_prefix_len(&ip(255, 0, 255, 0)), None);
    assert_eq!(netmask_prefix_len(&ip(255, 255, 253, 0)), None);
    assert_eq!(netmask_prefix_len(&ip(0, 255, 0, 0)), None);
}

#[test]
fn ip_equality_is_by_family_and_octets() {
    let a = IpAddress::V4(ip(10, 0, 0, 1));
    let b = IpAddress::V4(ip(10, 0, 0, 1));
    let c = IpAddress::V4(ip(10, 0, 0, 2));
    assert!(same_ip(&a, &b));
    assert!(!same_ip(&a, &c));

    let mut sixteen = [0u8; 16];
    sixteen[15] = 1;
    let v6 = IpAddress::V6(Ipv6Address { octets: sixteen });
    assert!(!same_ip(&a, &v6));
    assert!(same_ip(&v6, &IpAddress::V6(Ipv6Address { octets: sixteen })));
}

#[test]
fn ipv6_equality_is_by_octets() {
    let mut x = [7u8; 16];
    let y = [7u8; 16];
    assert!(same_ipv6(&Ipv6Address { octets: x }, &Ipv6Address { octets: y }));
    x[0] = 8;
    assert!(!same_ipv6(&Ipv6Address { octets: x }, &Ipv6Address { octets: y }));
}

#[test]
fn mac_is_held_as_given() {
    let m = MacAddress::new([1, 2, 3, 4, 5, 6]);
    assert_eq!(m.octets, [1, 2, 3, 4, 5, 6]);
}

use dhcp_client::addr::Ipv4Address;
use dhcp_client::options::Network;
use dhcp_client::user_interface::{address_in_limits, get_subnet_limits};

fn ip(a: u8, b: u8, c: u8, d: u8) -> Ipv4Address {
    Ipv4Address { a, b, c, d }
}

fn lease(netmask: Option<Ipv4Address>, gateway: Option<Ipv4Address>) -> Network {
    Network {
        netmask,
        gateway,
        dns: None,
        server_identifier: None,
    }
}

#[test]
fn subnet_limits_of_a_slash_24() {
    let net = lease(Some(ip(255, 255, 255, 0)), Some(ip(192, 168, 1, 1)));
    let (lower, upper) = get_subnet_limits(&net).unwrap();
    assert_eq!(lower, ip(192, 168, 1, 1));
    assert_eq!(upper, ip(192, 168, 1, 254));
}

#[test]
fn subnet_limits_of_a_slash_22() {
    let net = lease(Some(ip(255, 255, 252, 0)), Some(ip(10, 20, 5, 1)));
    let (lower, upper) = get_subnet_limits(&net).unwrap();
    assert_eq!(lower, ip(10, 20, 4, 1));
    assert_eq!(upper, ip(10, 20, 7, 254));
}

#[test]
fn subnet_limits_need_netmask_and_gateway() {
    assert!(get_subnet_limits(&lease(None, Some(ip(10, 0, 0, 1)))).is_none());
    assert!(get_subnet_limits(&lease(Some(ip(255, 0, 0, 0)), None)).is_none());
}

#[test]
fn degenerate_subnet_has_no_limits() {
    // With a /32 mask and a gateway ending in 255 the first host address
    // would overflow the last octet.
    let net = lease(Some(ip(255, 255, 255, 255)), Some(ip(10, 0, 0, 255)));
    assert!(get_subnet_limits(&net).is_none());
}

#[test]
fn address_range_check_covers_first_three_octets() {
    let lower = ip(10, 20, 4, 2);
    let upper = ip(10, 20, 7, 254);
    assert!(address_in_limits(&ip(10, 20, 5, 77), &lower, &upper));
    assert!(!address_in_limits(&ip(10, 21, 5, 77), &lower, &upper));
    assert!(!address_in_limits(&ip(10, 20, 8, 1), &lower, &upper));
    // The final octet is the caller's free choice.
    assert!(address_in_limits(&ip(10, 20, 4, 0), &lower, &upper));
}

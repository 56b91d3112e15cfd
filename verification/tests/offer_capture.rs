use dhcp_client::addr::{Ipv4Address, MacAddress};
use dhcp_client::capture::{find_offer, match_offer, network_from_offer, CaptureSchedule};
use dhcp_client::errors::DhcpError;
use dhcp_client::packet::{build_dhcp_payload, build_frame, DhcpTransaction, OptionPreset};

fn mac(octets: [u8; 6]) -> MacAddress {
    MacAddress { octets }
}

/// A full Ethernet/IPv4/UDP/DHCP frame carrying transaction id `xid`, with a
/// marker byte in the first chaddr octet.
fn frame_with_xid(xid: u32, marker: u8) -> Vec<u8> {
    let t = DhcpTransaction {
        xid,
        client_mac: mac([marker, 0, 0, 0, 0, 1]),
    };
    let payload = build_dhcp_payload(&t, OptionPreset::Full);
    let mut f = build_frame(&payload, &mac([2, 2, 2, 2, 2, 2]), 0x0101);
    // A server's Offer arrives on destination port 68; the built Discover
    // already carries 68 as its source port, so swap the UDP ports.
    f.swap(34, 36);
    f.swap(35, 37);
    f
}

#[test]
fn offer_matching_takes_first_frame_with_wanted_xid() {
    let frames = vec![
        frame_with_xid(7, 10),
        frame_with_xid(7, 20),
        frame_with_xid(9, 30),
        frame_with_xid(7, 40),
    ];
    // Frames 1, 2 and 4 carry the wrong transaction id and are skipped
    // without error; only the third is accepted.
    assert!(match_offer(&frames[0], 9).is_none());
    assert!(match_offer(&frames[1], 9).is_none());
    assert!(match_offer(&frames[3], 9).is_none());
    let offer = find_offer(&frames, 9).unwrap();
    assert_eq!(&offer[4..8], &[0, 0, 0, 9]);
    // The payload is the third frame's: its chaddr marker is 30.
    assert_eq!(offer[28], 30);
}

#[test]
fn no_frame_matches_without_the_xid() {
    let frames = vec![frame_with_xid(1, 1), frame_with_xid(2, 2)];
    assert!(find_offer(&frames, 3).is_none());
}

#[test]
fn short_or_foreign_frames_are_skipped() {
    // too short for Ethernet
    assert!(match_offer(&[0u8; 10], 9).is_none());
    // wrong ethertype (ARP)
    let mut f = frame_with_xid(9, 1);
    f[12] = 0x08;
    f[13] = 0x06;
    assert!(match_offer(&f, 9).is_none());
    // not UDP
    let mut f = frame_with_xid(9, 1);
    f[23] = 6;
    assert!(match_offer(&f, 9).is_none());
    // wrong destination port
    let mut f = frame_with_xid(9, 1);
    f[37] = 67;
    assert!(match_offer(&f, 9).is_none());
    // too short for a DHCP message
    let f = frame_with_xid(9, 1);
    assert!(match_offer(&f[..100], 9).is_none());
}

#[test]
fn matching_frame_yields_its_dhcp_payload() {
    let f = frame_with_xid(0xCAFEBABE, 77);
    let payload = match_offer(&f, 0xCAFEBABE).unwrap();
    assert_eq!(payload.len(), 314);
    assert_eq!(&payload[..], &f[42..]);
}

#[test]
fn capture_schedule_doubles_waits_and_gives_up() {
    let mut schedule = CaptureSchedule::new(3, 500);
    assert_eq!(schedule.next_attempt(), Some(500));
    assert_eq!(schedule.next_attempt(), Some(1000));
    assert_eq!(schedule.next_attempt(), Some(2000));
    assert_eq!(schedule.next_attempt(), None);
    assert!(matches!(schedule.give_up(), DhcpError::NoMatchingOffer));
}

#[test]
fn capture_schedule_wait_saturates() {
    let mut schedule = CaptureSchedule::new(3, u64::MAX - 1);
    assert_eq!(schedule.next_attempt(), Some(u64::MAX - 1));
    assert_eq!(schedule.next_attempt(), Some(u64::MAX));
    assert_eq!(schedule.next_attempt(), Some(u64::MAX));
}

#[test]
fn network_from_offer_decodes_options_after_fixed_fields() {
    let mut payload = vec![0u8; 236];
    payload.extend_from_slice(&[0x63, 0x82, 0x53, 0x63]);
    payload.extend_from_slice(&[1, 4, 255, 255, 255, 0]);
    payload.extend_from_slice(&[3, 4, 192, 168, 1, 1]);
    payload.push(0xFF);
    let net = network_from_offer(&payload).unwrap();
    assert_eq!(net.get_netmask(), Some(Ipv4Address { a: 255, b: 255, c: 255, d: 0 }));
    assert_eq!(net.get_gateway(), Some(Ipv4Address { a: 192, b: 168, c: 1, d: 1 }));
    assert_eq!(net.get_dns(), None);
}

#[test]
fn network_from_offer_rejects_truncated_message() {
    assert!(matches!(
        network_from_offer(&[0u8; 100]),
        Err(DhcpError::MalformedBuffer)
    ));
}

#[test]
fn network_from_offer_propagates_decode_errors() {
    let mut payload = vec![0u8; 236];
    payload.extend_from_slice(&[1, 250, 0, 0]);
    assert!(matches!(
        network_from_offer(&payload),
        Err(DhcpError::OptionDecodeOutOfBounds)
    ));
}

use dhcp_client::addr::MacAddress;
use dhcp_client::checksum::checksum;
use dhcp_client::errors::DhcpError;
use dhcp_client::packet::{
    build_dhcp_payload, build_dhcp_to_layer2, build_frame, new_transaction, remove_trailing_zeros,
    DhcpTransaction, Interface, OptionPreset, DHCP_PACKET_LEN, FRAME_LEN,
};

fn mac(octets: [u8; 6]) -> MacAddress {
    MacAddress { octets }
}

#[test]
fn trim_is_noop_on_nonzero_terminated_buffer() {
    let buf = vec![0u8, 7, 0, 0, 3];
    let trimmed = remove_trailing_zeros(buf.clone()).unwrap();
    assert_eq!(trimmed, buf);
}

#[test]
fn trim_fails_on_all_zero_buffer() {
    assert!(matches!(
        remove_trailing_zeros(vec![0u8; 16]),
        Err(DhcpError::MalformedBuffer)
    ));
}

#[test]
fn trim_fails_on_empty_buffer() {
    assert!(matches!(
        remove_trailing_zeros(Vec::new()),
        Err(DhcpError::MalformedBuffer)
    ));
}

#[test]
fn trim_cuts_zero_tail_only() {
    let trimmed = remove_trailing_zeros(vec![0u8, 5, 0, 0, 0]).unwrap();
    assert_eq!(trimmed, vec![0u8, 5]);
}

#[test]
fn transaction_keeps_the_client_mac() {
    let m = mac([0x02, 0xAB, 0xCD, 0xEF, 0x01, 0x23]);
    let t = new_transaction(m);
    assert_eq!(t.client_mac.octets, m.octets);
    // Whatever xid was drawn, the built payload carries it.
    let p = build_dhcp_payload(&t, OptionPreset::Full);
    let xid = u32::from_be_bytes([p[4], p[5], p[6], p[7]]);
    assert_eq!(xid, t.xid);
}

#[test]
fn payload_carries_xid_and_chaddr() {
    let t = DhcpTransaction {
        xid: 0xDEADBEEF,
        client_mac: mac([0x02, 0x11, 0x22, 0x33, 0x44, 0x55]),
    };
    let p = build_dhcp_payload(&t, OptionPreset::Full);
    assert_eq!(p.len(), DHCP_PACKET_LEN);
    assert_eq!(&p[4..8], &[0xDE, 0xAD, 0xBE, 0xEF]);
    assert_eq!(&p[28..34], &[0x02, 0x11, 0x22, 0x33, 0x44, 0x55]);
    assert_eq!(&p[34..44], &[0u8; 10]);

    let t2 = DhcpTransaction {
        xid: 7,
        client_mac: mac([0xAA, 0xBB, 0xCC, 0xDD, 0xEE, 0xFF]),
    };
    let p2 = build_dhcp_payload(&t2, OptionPreset::NetmaskOnly);
    assert_eq!(&p2[4..8], &[0, 0, 0, 7]);
    assert_eq!(&p2[28..34], &[0xAA, 0xBB, 0xCC, 0xDD, 0xEE, 0xFF]);
}

#[test]
fn payload_fixed_fields_and_options() {
    let t = DhcpTransaction {
        xid: 1,
        client_mac: mac([1, 2, 3, 4, 5, 6]),
    };
    let p = build_dhcp_payload(&t, OptionPreset::Slim);
    // op, htype, hlen, hops
    assert_eq!(&p[0..4], &[1, 1, 6, 0]);
    // secs, broadcast flag
    assert_eq!(&p[8..12], &[0, 0, 0x80, 0]);
    // ciaddr..giaddr all zero
    assert_eq!(&p[12..28], &[0u8; 16]);
    // sname and file all zero
    assert!(p[44..236].iter().all(|&b| b == 0));
    // magic cookie
    assert_eq!(&p[236..240], &[0x63, 0x82, 0x53, 0x63]);
    // message type Discover, parameter request list, client id, end
    assert_eq!(
        &p[240..258],
        &[53, 1, 1, 55, 3, 1, 3, 6, 61, 7, 1, 1, 2, 3, 4, 5, 6, 255]
    );
    // zero padding after the end marker
    assert!(p[258..].iter().all(|&b| b == 0));
}

#[test]
fn preset_parameter_request_lists() {
    let t = DhcpTransaction {
        xid: 9,
        client_mac: mac([9, 9, 9, 9, 9, 9]),
    };
    let full = build_dhcp_payload(&t, OptionPreset::Full);
    assert_eq!(&full[243..249], &[55, 4, 1, 3, 6, 15]);
    let slim = build_dhcp_payload(&t, OptionPreset::Slim);
    assert_eq!(&slim[243..248], &[55, 3, 1, 3, 6]);
    let netmask_only = build_dhcp_payload(&t, OptionPreset::NetmaskOnly);
    assert_eq!(&netmask_only[243..246], &[55, 1, 1]);
}

#[test]
fn frame_checksum_recomputes_to_stored_value() {
    let t = DhcpTransaction {
        xid: 0x01020304,
        client_mac: mac([2, 4, 6, 8, 10, 12]),
    };
    let p = build_dhcp_payload(&t, OptionPreset::Full);
    let f = build_frame(&p, &mac([2, 4, 6, 8, 10, 12]), 0x5A5A);
    let stored = ((f[24] as u16) << 8) | f[25] as u16;
    let mut header: Vec<u8> = f[14..34].to_vec();
    header[10] = 0;
    header[11] = 0;
    assert_eq!(checksum(&header), stored);
}

#[test]
fn full_header_checksums_to_zero() {
    let t = DhcpTransaction {
        xid: 0xA1B2C3D4,
        client_mac: mac([1, 1, 2, 3, 5, 8]),
    };
    let p = build_dhcp_payload(&t, OptionPreset::Slim);
    let f = build_frame(&p, &mac([1, 1, 2, 3, 5, 8]), 0x00FF);
    // With the stored checksum left in place, the header's one's-complement
    // sum folds to 0xFFFF, whose complement is zero.
    assert_eq!(checksum(&f[14..34]), 0);
}

#[test]
fn frame_layout() {
    let p = vec![1u8, 2, 3];
    let src = mac([0x0A, 0x0B, 0x0C, 0x0D, 0x0E, 0x0F]);
    let f = build_frame(&p, &src, 0x1234);
    assert_eq!(f.len(), FRAME_LEN);
    // Ethernet: broadcast destination, our source, IPv4 ethertype
    assert_eq!(&f[0..6], &[0xFF; 6]);
    assert_eq!(&f[6..12], &[0x0A, 0x0B, 0x0C, 0x0D, 0x0E, 0x0F]);
    assert_eq!(&f[12..14], &[0x08, 0x00]);
    // IPv4: version/ihl, total length 342, identification, ttl 64, udp
    assert_eq!(f[14], 0x45);
    assert_eq!(&f[16..18], &[0x01, 0x56]);
    assert_eq!(&f[18..20], &[0x12, 0x34]);
    assert_eq!(f[22], 64);
    assert_eq!(f[23], 17);
    // source 0.0.0.0, destination broadcast
    assert_eq!(&f[26..30], &[0, 0, 0, 0]);
    assert_eq!(&f[30..34], &[255, 255, 255, 255]);
    // UDP: 68 -> 67, fixed DHCP length, unchecked checksum
    assert_eq!(&f[34..42], &[0, 68, 0, 67, 0x01, 0x3A, 0, 0]);
    // payload zero-padded to the fixed container size
    assert_eq!(&f[42..45], &[1, 2, 3]);
    assert!(f[45..].iter().all(|&b| b == 0));
}

#[test]
fn build_fails_without_hardware_address() {
    let iface = Interface {
        name: "eth0".to_string(),
        index: 2,
        mac: None,
    };
    assert!(matches!(
        build_dhcp_to_layer2(vec![1u8, 2, 3], &iface),
        Err(DhcpError::InterfaceNotFound)
    ));
}

#[test]
fn build_fails_on_oversized_payload() {
    let iface = Interface {
        name: "eth0".to_string(),
        index: 2,
        mac: Some(mac([1, 2, 3, 4, 5, 6])),
    };
    assert!(matches!(
        build_dhcp_to_layer2(vec![1u8; DHCP_PACKET_LEN + 1], &iface),
        Err(DhcpError::MalformedBuffer)
    ));
}

#[test]
fn build_wraps_payload_when_interface_is_usable() {
    let iface = Interface {
        name: "eth0".to_string(),
        index: 2,
        mac: Some(mac([1, 2, 3, 4, 5, 6])),
    };
    let f = build_dhcp_to_layer2(vec![9u8, 8, 7], &iface).unwrap();
    assert_eq!(f.len(), FRAME_LEN);
    assert_eq!(&f[6..12], &[1, 2, 3, 4, 5, 6]);
    assert_eq!(&f[42..45], &[9, 8, 7]);
}

#[test]
fn checksum_known_vector() {
    // The worked example of RFC 1071 / common textbooks: a 20-byte header
    // whose checksum field must come out as 0xB1E6.
    let header = vec![
        0x45u8, 0x00, 0x00, 0x3C, 0x1C, 0x46, 0x40, 0x00, 0x40, 0x06, 0x00, 0x00, 0xAC, 0x10,
        0x0A, 0x63, 0xAC, 0x10, 0x0A, 0x0C,
    ];
    assert_eq!(checksum(&header), 0xB1E6);
}

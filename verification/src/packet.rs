//! The layered packet codec: builds the DHCP Discover payload and wraps it in
//! UDP, IPv4 and Ethernet headers, byte-exact to the RFC 2131 field layout.

use vstd::prelude::*;
use crate::addr::MacAddress;
use crate::bytes::{all_zero, append_bytes, push_be16, push_be32, push_zeros, zero_seq};
use crate::checksum::{be16_at, be32_at, checksum, internet_checksum};
use crate::errors::DhcpError;
use crate::options::{encode_option, magic_cookie, DhcpOptionCode};

verus! {

/// The fixed size of the DHCP message container (legacy BOOTP compatibility
/// length); the unused tail is zero-padded.
pub const DHCP_PACKET_LEN: usize = 314;

/// The size of the fixed-format BOOTP fields that precede the options block.
pub const DHCP_FIXED_LEN: usize = 236;

/// The size of the full Ethernet frame wrapping the fixed DHCP container.
pub const FRAME_LEN: usize = 356;

/// Relies on rand::random: a freshly drawn value of the requested type;
/// nothing is assumed about which value comes out.
pub assume_specification<T>[ rand::random::<T> ]() -> (r: T)
    where
        rand::distributions::Standard: rand::distributions::Distribution<T>,
;

/// One outstanding Discover: its random transaction id and the client's
/// hardware address.
#[derive(Clone, Copy, Debug)]
pub struct DhcpTransaction {
    pub xid: u32,
    pub client_mac: MacAddress,
}

/// Opens a transaction with a freshly drawn transaction id.
pub fn new_transaction(client_mac: MacAddress) -> (t: DhcpTransaction)
    ensures
        t.client_mac == client_mac,
{
    DhcpTransaction { xid: rand::random::<u32>(), client_mac }
}

/// A network interface as the codec sees it: kernel index and hardware
/// address, when the interface has one.
#[derive(Clone, Debug)]
pub struct Interface {
    pub name: String,
    pub index: u32,
    pub mac: Option<MacAddress>,
}

/// Which options the Discover's Parameter-Request-List asks for.
#[derive(Clone, Copy, Debug, PartialEq, Eq, Structural)]
pub enum OptionPreset {
    /// Subnet-Mask, Router, Domain-Name-Server and Domain-Name.
    Full,
    /// Subnet-Mask, Router and Domain-Name-Server.
    Slim,
    /// Subnet-Mask alone.
    NetmaskOnly,
}

/// The option codes a preset requests.
pub open spec fn requested_codes(preset: OptionPreset) -> Seq<u8> {
    match preset {
        OptionPreset::Full => seq![
            DhcpOptionCode::SubnetMask.spec_byte(),
            DhcpOptionCode::Router.spec_byte(),
            DhcpOptionCode::DomainNameServer.spec_byte(),
            DhcpOptionCode::DomainName.spec_byte(),
        ],
        OptionPreset::Slim => seq![
            DhcpOptionCode::SubnetMask.spec_byte(),
            DhcpOptionCode::Router.spec_byte(),
            DhcpOptionCode::DomainNameServer.spec_byte(),
        ],
        OptionPreset::NetmaskOnly => seq![DhcpOptionCode::SubnetMask.spec_byte()],
    }
}

/// The options block of a Discover built from `mac` and `preset`:
/// Message-Type Discover, the Parameter-Request-List, a Client-Identifier of
/// hardware type 1 plus the MAC, and the End marker.
pub open spec fn discover_options_bytes(mac: MacAddress, preset: OptionPreset) -> Seq<u8> {
    seq![DhcpOptionCode::MessageType.spec_byte(), 1u8, 1u8] + seq![
        DhcpOptionCode::ParameterRequestList.spec_byte(),
        requested_codes(preset).len() as u8,
    ] + requested_codes(preset) + seq![DhcpOptionCode::ClientIdentifier.spec_byte(), 7u8, 1u8]
        + mac.octets@ + seq![DhcpOptionCode::End.spec_byte()]
}

/// The full layout of a Discover payload: the fixed BOOTP fields
/// (op BOOTREQUEST, Ethernet hardware type, 6-byte addresses, the broadcast
/// flag, all address fields zero, chaddr = MAC zero-padded to 16 bytes, empty
/// sname and file), then the magic cookie and the options block, then zero
/// padding up to the fixed container size.
pub open spec fn valid_discover_payload(
    p: Seq<u8>,
    xid: u32,
    mac: MacAddress,
    preset: OptionPreset,
) -> bool {
    let opts = discover_options_bytes(mac, preset);
    &&& p.len() == 314
    &&& p[0] == 1 && p[1] == 1 && p[2] == 6 && p[3] == 0
    &&& be32_at(p, 4) == xid
    &&& p[8] == 0 && p[9] == 0
    &&& p[10] == 0x80 && p[11] == 0
    &&& all_zero(p.subrange(12, 28))
    &&& p.subrange(28, 34) == mac.octets@
    &&& all_zero(p.subrange(34, 44))
    &&& all_zero(p.subrange(44, 236))
    &&& p.subrange(236, 240) == magic_cookie()
    &&& p.subrange(240, 240 + opts.len() as int) == opts
    &&& all_zero(p.subrange(240 + opts.len() as int, 314))
}

/// Builds the DHCP Discover payload for transaction `t`, requesting the
/// options of `preset`.
pub fn build_dhcp_payload(t: &DhcpTransaction, preset: OptionPreset) -> (r: Vec<u8>)
    ensures
        valid_discover_payload(r@, t.xid, t.client_mac, preset),
{
    let m = t.client_mac.octets;
    let mut p: Vec<u8> = Vec::new();
    p.push(1);
    p.push(1);
    p.push(6);
    p.push(0);
    push_be32(&mut p, t.xid);
    p.push(0);
    p.push(0);
    p.push(0x80);
    p.push(0);
    push_zeros(&mut p, 16);
    p.push(m[0]);
    p.push(m[1]);
    p.push(m[2]);
    p.push(m[3]);
    p.push(m[4]);
    p.push(m[5]);
    push_zeros(&mut p, 10);
    push_zeros(&mut p, 192);
    proof {
        assert(p@.len() == 236);
        assert(p@[0] == 1 && p@[1] == 1 && p@[2] == 6 && p@[3] == 0);
        assert(be32_at(p@, 4) == t.xid);
        assert(p@[8] == 0 && p@[9] == 0 && p@[10] == 0x80 && p@[11] == 0);
        assert(all_zero(p@.subrange(12, 28)));
        assert(p@.subrange(28, 34) =~= t.client_mac.octets@);
        assert(all_zero(p@.subrange(34, 44)));
        assert(all_zero(p@.subrange(44, 236)));
    }
    let ghost head = p@;
    p.push(0x63);
    p.push(0x82);
    p.push(0x53);
    p.push(0x63);
    let mut mtv: Vec<u8> = Vec::new();
    mtv.push(1);
    encode_option(&mut p, DhcpOptionCode::MessageType, mtv.as_slice());
    let mut codes: Vec<u8> = Vec::new();
    match preset {
        OptionPreset::Full => {
            codes.push(DhcpOptionCode::SubnetMask.byte());
            codes.push(DhcpOptionCode::Router.byte());
            codes.push(DhcpOptionCode::DomainNameServer.byte());
            codes.push(DhcpOptionCode::DomainName.byte());
        },
        OptionPreset::Slim => {
            codes.push(DhcpOptionCode::SubnetMask.byte());
            codes.push(DhcpOptionCode::Router.byte());
            codes.push(DhcpOptionCode::DomainNameServer.byte());
        },
        OptionPreset::NetmaskOnly => {
            codes.push(DhcpOptionCode::SubnetMask.byte());
        },
    }
    proof {
        assert(codes@ =~= requested_codes(preset));
    }
    encode_option(&mut p, DhcpOptionCode::ParameterRequestList, codes.as_slice());
    let mut cid: Vec<u8> = Vec::new();
    cid.push(1);
    cid.push(m[0]);
    cid.push(m[1]);
    cid.push(m[2]);
    cid.push(m[3]);
    cid.push(m[4]);
    cid.push(m[5]);
    proof {
        assert(cid@ =~= seq![1u8] + t.client_mac.octets@);
    }
    encode_option(&mut p, DhcpOptionCode::ClientIdentifier, cid.as_slice());
    p.push(DhcpOptionCode::End.byte());
    let ghost opts = discover_options_bytes(t.client_mac, preset);
    proof {
        assert(p@.len() == 255 + requested_codes(preset).len());
        assert(p@.subrange(0, 236) =~= head);
        assert(p@.subrange(236, 240) =~= magic_cookie());
        assert(p@.subrange(240, 240 + opts.len() as int) =~= opts);
    }
    let pad = DHCP_PACKET_LEN - p.len();
    push_zeros(&mut p, pad);
    proof {
        assert(p@.subrange(0, 236) =~= head);
        assert(p@.subrange(236, 240) =~= magic_cookie());
        assert(p@.subrange(240, 240 + opts.len() as int) =~= opts);
        assert(all_zero(p@.subrange(240 + opts.len() as int, 314)));
        assert(all_zero(p@.subrange(12, 28)));
        assert(p@.subrange(28, 34) =~= t.client_mac.octets@);
        assert(all_zero(p@.subrange(34, 44)));
        assert(all_zero(p@.subrange(44, 236)));
        assert(be32_at(p@, 4) == t.xid);
    }
    p
}

/// For any MAC and transaction id, a built Discover payload carries the
/// transaction id in its xid field and the client MAC in chaddr, zero-padded
/// to 16 bytes.
pub proof fn lemma_discover_payload_identity(
    p: Seq<u8>,
    xid: u32,
    mac: MacAddress,
    preset: OptionPreset,
)
    requires
        valid_discover_payload(p, xid, mac, preset),
    ensures
        be32_at(p, 4) == xid,
        p.subrange(28, 34) == mac.octets@,
        all_zero(p.subrange(34, 44)),
{
}

/// The 20-byte IPv4 header of `h` with its checksum field (bytes 10 and 11)
/// zeroed, as used when the checksum itself is computed.
pub open spec fn zero_checksum(h: Seq<u8>) -> Seq<u8> {
    h.update(10, 0u8).update(11, 0u8)
}

/// The layout of the full Discover frame around the payload `dhcp`:
/// Ethernet broadcast from `src_mac` with the IPv4 ethertype; an IPv4 header
/// of minimum length with the given identification, TTL 64, protocol UDP,
/// source 0.0.0.0, destination 255.255.255.255, and a checksum that
/// recomputes over the checksum-zeroed header to the stored value; a UDP
/// header from port 68 to port 67 with the fixed DHCP length and an unused
/// (zero) checksum; then the payload zero-padded to the fixed container size.
pub open spec fn valid_discover_frame(
    f: Seq<u8>,
    dhcp: Seq<u8>,
    src_mac: MacAddress,
    ident: u16,
) -> bool {
    &&& dhcp.len() <= 314
    &&& f.len() == 356
    &&& f[0] == 0xFF && f[1] == 0xFF && f[2] == 0xFF && f[3] == 0xFF && f[4] == 0xFF && f[5]
        == 0xFF
    &&& f.subrange(6, 12) == src_mac.octets@
    &&& f[12] == 0x08 && f[13] == 0x00
    &&& f[14] == 0x45 && f[15] == 0x00
    &&& be16_at(f, 16) == 342
    &&& be16_at(f, 18) == ident
    &&& f[20] == 0 && f[21] == 0
    &&& f[22] == 64 && f[23] == 17
    &&& be16_at(f, 24) == internet_checksum(zero_checksum(f.subrange(14, 34)))
    &&& f[26] == 0 && f[27] == 0 && f[28] == 0 && f[29] == 0
    &&& f[30] == 0xFF && f[31] == 0xFF && f[32] == 0xFF && f[33] == 0xFF
    &&& be16_at(f, 34) == 68
    &&& be16_at(f, 36) == 67
    &&& be16_at(f, 38) == 314
    &&& f[40] == 0 && f[41] == 0
    &&& f.subrange(42, 356) == dhcp + zero_seq((314 - dhcp.len()) as nat)
}

/// The checksum stored in a built frame's IPv4 header equals the checksum
/// recomputed over that header with the checksum field zeroed.
pub proof fn lemma_frame_checksum(f: Seq<u8>, dhcp: Seq<u8>, src_mac: MacAddress, ident: u16)
    requires
        valid_discover_frame(f, dhcp, src_mac, ident),
    ensures
        be16_at(f, 24) == internet_checksum(zero_checksum(f.subrange(14, 34))),
{
}

/// A built frame's IPv4 header checksums to zero as stored: recomputing the
/// one's-complement sum over the full header, checksum field included,
/// confirms the stored value — the invariant a receiver checks.
pub proof fn lemma_frame_header_checksum_is_zero(
    f: Seq<u8>,
    dhcp: Seq<u8>,
    src_mac: MacAddress,
    ident: u16,
)
    requires
        valid_discover_frame(f, dhcp, src_mac, ident),
    ensures
        internet_checksum(f.subrange(14, 34)) == 0,
{
    let h = f.subrange(14, 34);
    assert(h[10] == f[24] && h[11] == f[25]);
    crate::checksum::lemma_stored_checksum_verifies(h, 10);
}

/// Wraps `dhcp_packet` in UDP, IPv4 (with the given identification) and
/// Ethernet headers, ready for link-layer transmission.
pub fn build_frame(dhcp_packet: &[u8], src_mac: &MacAddress, identification: u16) -> (r: Vec<u8>)
    requires
        dhcp_packet@.len() <= 314,
    ensures
        valid_discover_frame(r@, dhcp_packet@, *src_mac, identification),
{
    // The IPv4 header with a zeroed checksum field, over which the checksum
    // is computed.
    let mut h: Vec<u8> = Vec::new();
    h.push(0x45);
    h.push(0x00);
    push_be16(&mut h, 342);
    push_be16(&mut h, identification);
    h.push(0);
    h.push(0);
    h.push(64);
    h.push(17);
    h.push(0);
    h.push(0);
    push_zeros(&mut h, 4);
    h.push(0xFF);
    h.push(0xFF);
    h.push(0xFF);
    h.push(0xFF);
    proof {
        assert(h@.len() == 20);
    }
    let c: u16 = checksum(h.as_slice());

    let m = src_mac.octets;
    let mut f: Vec<u8> = Vec::new();
    f.push(0xFF);
    f.push(0xFF);
    f.push(0xFF);
    f.push(0xFF);
    f.push(0xFF);
    f.push(0xFF);
    f.push(m[0]);
    f.push(m[1]);
    f.push(m[2]);
    f.push(m[3]);
    f.push(m[4]);
    f.push(m[5]);
    f.push(0x08);
    f.push(0x00);
    f.push(0x45);
    f.push(0x00);
    push_be16(&mut f, 342);
    push_be16(&mut f, identification);
    f.push(0);
    f.push(0);
    f.push(64);
    f.push(17);
    push_be16(&mut f, c);
    push_zeros(&mut f, 4);
    f.push(0xFF);
    f.push(0xFF);
    f.push(0xFF);
    f.push(0xFF);
    push_be16(&mut f, 68);
    push_be16(&mut f, 67);
    push_be16(&mut f, 314);
    f.push(0);
    f.push(0);
    proof {
        assert(f@.len() == 42);
    }
    append_bytes(&mut f, dhcp_packet);
    let pad = FRAME_LEN - f.len();
    push_zeros(&mut f, pad);
    proof {
        assert(f@.len() == 356);
        assert(zero_checksum(f@.subrange(14, 34)) =~= h@);
        assert(f@.subrange(6, 12) =~= src_mac.octets@);
        assert(f@.subrange(42, 356) =~= dhcp_packet@ + zero_seq(
            (314 - dhcp_packet@.len()) as nat,
        ));
    }
    f
}

/// Whether `f` is a well-formed Discover frame around `dhcp` from `mac`,
/// under some IPv4 identification value (which is drawn at random and so not
/// pinned by any contract).
pub open spec fn discover_frame_some_identification(
    f: Seq<u8>,
    dhcp: Seq<u8>,
    mac: MacAddress,
) -> bool {
    exists|ident: u16| valid_discover_frame(f, dhcp, mac, ident)
}

/// Builds the ready-to-send Ethernet frame around a DHCP payload.
///
/// Fails with `InterfaceNotFound` when the interface has no hardware address,
/// and with `MalformedBuffer` when the payload would exceed the fixed DHCP
/// container size.  The IPv4 identification field is drawn fresh for each
/// frame.
pub fn build_dhcp_to_layer2(dhcp_packet: Vec<u8>, interface: &Interface) -> (r: Result<
    Vec<u8>,
    DhcpError,
>)
    ensures
        r is Ok <==> (interface.mac is Some && dhcp_packet@.len() <= 314),
        (match r {
            Ok(f) => interface.mac is Some && dhcp_packet@.len() <= 314
                && discover_frame_some_identification(f@, dhcp_packet@, interface.mac->Some_0),
            Err(e) => (e == DhcpError::InterfaceNotFound && interface.mac is None) || (e
                == DhcpError::MalformedBuffer && interface.mac is Some && dhcp_packet@.len()
                > 314),
        }),
{
    match &interface.mac {
        None => Err(DhcpError::InterfaceNotFound),
        Some(m) => {
            if dhcp_packet.len() > DHCP_PACKET_LEN {
                Err(DhcpError::MalformedBuffer)
            } else {
                let mv: MacAddress = *m;
                let identification: u16 = rand::random::<u16>();
                let f = build_frame(dhcp_packet.as_slice(), &mv, identification);
                proof {
                    assert(interface.mac->Some_0 == mv);
                    assert(discover_frame_some_identification(
                        f@,
                        dhcp_packet@,
                        interface.mac->Some_0,
                    )) by {
                        assert(valid_discover_frame(
                            f@,
                            dhcp_packet@,
                            interface.mac->Some_0,
                            identification,
                        ));
                    }
                }
                Ok(f)
            }
        },
    }
}

/// Cuts the zero padding off the tail of `packet`, keeping everything up to
/// and including its last non-zero byte.
///
/// Trimming a buffer that ends in a non-zero byte is a no-op; a buffer of
/// zeros alone (or an empty one) yields `MalformedBuffer`.
pub fn remove_trailing_zeros(mut packet: Vec<u8>) -> (r: Result<Vec<u8>, DhcpError>)
    ensures
        (match r {
            Ok(v) => v@.len() >= 1 && v@ == packet@.take(v@.len() as int) && v@[v@.len() - 1] != 0
                && all_zero(packet@.skip(v@.len() as int)),
            Err(e) => e == DhcpError::MalformedBuffer,
        }),
        r is Err <==> all_zero(packet@),
        packet@.len() > 0 && packet@[packet@.len() - 1] != 0 ==> (r matches Ok(v) && v@
            == packet@),
{
    let ghost orig = packet@;
    let mut k: usize = packet.len();
    while k > 0
        invariant_except_break
            k <= orig.len(),
            packet@ == orig,
            all_zero(orig.skip(k as int)),
        ensures
            k <= orig.len(),
            packet@ == orig,
            all_zero(orig.skip(k as int)),
            k > 0 ==> orig[k - 1] != 0,
        decreases k,
    {
        if packet[k - 1] != 0 {
            break ;
        }
        proof {
            assert(all_zero(orig.skip(k - 1))) by {
                assert forall|i: int| 0 <= i < orig.skip(k - 1).len() implies #[trigger] orig.skip(
                    k - 1,
                )[i] == 0 by {
                    if i == 0 {
                        assert(orig.skip(k - 1)[0] == orig[k - 1]);
                    } else {
                        assert(orig.skip(k - 1)[i] == orig.skip(k as int)[i - 1]);
                    }
                }
            }
        }
        k = k - 1;
    }
    proof {
        if orig.len() > 0 && orig[orig.len() - 1] != 0 && k < orig.len() {
            assert(orig.skip(k as int)[orig.len() - 1 - k] == orig[orig.len() - 1]);
            assert(false);
        }
    }
    if k == 0 {
        proof {
            assert(orig.skip(0) =~= orig);
        }
        return Err(DhcpError::MalformedBuffer);
    }
    packet.truncate(k);
    proof {
        assert(!all_zero(orig)) by {
            assert(orig[k - 1] != 0);
        }
    }
    Ok(packet)
}

} // verus!

//! The DHCP option (TLV) codec.
//!
//! Options are a sequence of `(code: 1 byte, len: 1 byte, value: len bytes)`
//! records, terminated by an End marker (0xFF); Pad bytes (code 0) may stand
//! between records.  The block may open with the 4-byte magic cookie, which is
//! recognized only at offset 0.

use vstd::prelude::*;
use crate::addr::Ipv4Address;
use crate::errors::DhcpError;

verus! {

/// The closed set of DHCP option codes this client reads or writes.
#[derive(Clone, Copy, Debug, PartialEq, Eq, Structural)]
pub enum DhcpOptionCode {
    Pad,
    SubnetMask,
    Router,
    DomainNameServer,
    DomainName,
    MessageType,
    ParameterRequestList,
    ClientIdentifier,
    ServerIdentifier,
    End,
}

impl DhcpOptionCode {
    /// The wire value of the code.
    pub open spec fn spec_byte(self) -> u8 {
        match self {
            DhcpOptionCode::Pad => 0,
            DhcpOptionCode::SubnetMask => 1,
            DhcpOptionCode::Router => 3,
            DhcpOptionCode::DomainNameServer => 6,
            DhcpOptionCode::DomainName => 15,
            DhcpOptionCode::MessageType => 53,
            DhcpOptionCode::ParameterRequestList => 55,
            DhcpOptionCode::ClientIdentifier => 61,
            DhcpOptionCode::ServerIdentifier => 54,
            DhcpOptionCode::End => 255,
        }
    }

    pub fn byte(self) -> (r: u8)
        ensures
            r == self.spec_byte(),
    {
        match self {
            DhcpOptionCode::Pad => 0,
            DhcpOptionCode::SubnetMask => 1,
            DhcpOptionCode::Router => 3,
            DhcpOptionCode::DomainNameServer => 6,
            DhcpOptionCode::DomainName => 15,
            DhcpOptionCode::MessageType => 53,
            DhcpOptionCode::ParameterRequestList => 55,
            DhcpOptionCode::ClientIdentifier => 61,
            DhcpOptionCode::ServerIdentifier => 54,
            DhcpOptionCode::End => 255,
        }
    }
}

/// The network parameters learned from an Offer's options.
///
/// A field is `None` when the corresponding option was not present.  The
/// gateway comes from the Router option (code 3); the DHCP server's own
/// address, when announced through the Server-Identifier option (code 54), is
/// exposed separately.
#[derive(Clone, Copy, Debug, PartialEq, Eq, Structural)]
pub struct Network {
    pub netmask: Option<Ipv4Address>,
    pub gateway: Option<Ipv4Address>,
    pub dns: Option<Ipv4Address>,
    pub server_identifier: Option<Ipv4Address>,
}

impl Network {
    /// A `Network` with every field absent.
    pub open spec fn spec_empty() -> Network {
        Network { netmask: None, gateway: None, dns: None, server_identifier: None }
    }

    pub fn empty() -> (r: Network)
        ensures
            r == Network::spec_empty(),
    {
        Network { netmask: None, gateway: None, dns: None, server_identifier: None }
    }

    pub fn get_netmask(&self) -> (r: Option<Ipv4Address>)
        ensures
            r == self.netmask,
    {
        self.netmask
    }

    pub fn get_gateway(&self) -> (r: Option<Ipv4Address>)
        ensures
            r == self.gateway,
    {
        self.gateway
    }

    pub fn get_dns(&self) -> (r: Option<Ipv4Address>)
        ensures
            r == self.dns,
    {
        self.dns
    }

    pub fn get_server_identifier(&self) -> (r: Option<Ipv4Address>)
        ensures
            r == self.server_identifier,
    {
        self.server_identifier
    }
}

/// The 4-byte magic cookie that opens a DHCP (as opposed to BOOTP) options
/// block.
pub open spec fn magic_cookie() -> Seq<u8> {
    seq![0x63u8, 0x82u8, 0x53u8, 0x63u8]
}

/// Whether `b` starts with the magic cookie.
pub open spec fn has_cookie(b: Seq<u8>) -> bool {
    b.len() >= 4 && b.subrange(0, 4) == magic_cookie()
}

/// The address held in the first four value bytes of the record at `i`.
pub open spec fn value_address(b: Seq<u8>, i: int) -> Ipv4Address {
    Ipv4Address { a: b[i + 2], b: b[i + 3], c: b[i + 4], d: b[i + 5] }
}

/// `net` updated by the record whose code byte stands at `i`: a recognized
/// code with at least four value bytes sets its field (last record wins); any
/// other record leaves `net` unchanged.
pub open spec fn apply_option(net: Network, b: Seq<u8>, i: int) -> Network {
    if b[i + 1] < 4 {
        net
    } else if b[i] == DhcpOptionCode::SubnetMask.spec_byte() {
        Network { netmask: Some(value_address(b, i)), ..net }
    } else if b[i] == DhcpOptionCode::Router.spec_byte() {
        Network { gateway: Some(value_address(b, i)), ..net }
    } else if b[i] == DhcpOptionCode::DomainNameServer.spec_byte() {
        Network { dns: Some(value_address(b, i)), ..net }
    } else if b[i] == DhcpOptionCode::ServerIdentifier.spec_byte() {
        Network { server_identifier: Some(value_address(b, i)), ..net }
    } else {
        net
    }
}

/// The scan over the records of `b` from offset `i` with the fields learned
/// so far in `net`.  It stops at an End marker or at the end of the buffer,
/// steps over Pad bytes, and fails exactly when a record's declared length
/// would read past the end of the buffer.
pub open spec fn scan_options(b: Seq<u8>, i: int, net: Network) -> Result<Network, DhcpError>
    decreases b.len() - i,
{
    if i >= b.len() {
        Ok(net)
    } else if b[i] == DhcpOptionCode::End.spec_byte() {
        Ok(net)
    } else if b[i] == DhcpOptionCode::Pad.spec_byte() {
        scan_options(b, i + 1, net)
    } else if i + 2 + b[i + 1] > b.len() {
        Err(DhcpError::OptionDecodeOutOfBounds)
    } else {
        scan_options(b, i + 2 + b[i + 1], apply_option(net, b, i))
    }
}

/// What decoding an options block yields: the scan from past the magic cookie
/// when the block starts with one, and from the first byte otherwise.
pub open spec fn spec_decode_options(b: Seq<u8>) -> Result<Network, DhcpError> {
    if has_cookie(b) {
        scan_options(b, 4, Network::spec_empty())
    } else {
        scan_options(b, 0, Network::spec_empty())
    }
}

/// Reads the address in the value of the record at `i`.
fn read_value_address(b: &[u8], i: usize) -> (r: Ipv4Address)
    requires
        i + 6 <= b@.len(),
        b@.len() <= usize::MAX,
    ensures
        r == value_address(b@, i as int),
{
    Ipv4Address {
        a: *vstd::slice::slice_index_get(b, i + 2),
        b: *vstd::slice::slice_index_get(b, i + 3),
        c: *vstd::slice::slice_index_get(b, i + 4),
        d: *vstd::slice::slice_index_get(b, i + 5),
    }
}

/// Decodes an options block into the network parameters it announces.
///
/// The 4-byte magic cookie is skipped when it stands at the very start.  A
/// Subnet-Mask (1), Router (3), Domain-Name-Server (6) or Server-Identifier
/// (54) record sets the matching field from its first four value bytes (for
/// DNS, the first announced address); every other record is skipped by its
/// declared length.  A record announcing more value bytes than the buffer
/// holds yields `OptionDecodeOutOfBounds`.
pub fn decode_options(b: &[u8]) -> (r: Result<Network, DhcpError>)
    ensures
        r == spec_decode_options(b@),
{
    let n: usize = b.len();
    let mut i: usize = 0;
    let mut net: Network = Network::empty();
    if n >= 4 {
        let c0 = *vstd::slice::slice_index_get(b, 0);
        let c1 = *vstd::slice::slice_index_get(b, 1);
        let c2 = *vstd::slice::slice_index_get(b, 2);
        let c3 = *vstd::slice::slice_index_get(b, 3);
        if c0 == 0x63 && c1 == 0x82 && c2 == 0x53 && c3 == 0x63 {
            proof {
                assert(b@.subrange(0, 4) =~= magic_cookie());
            }
            i = 4;
        } else {
            proof {
                if has_cookie(b@) {
                    assert(b@[0] == 0x63 && b@[1] == 0x82 && b@[2] == 0x53 && b@[3] == 0x63) by {
                        assert(b@.subrange(0, 4)[0] == b@[0]);
                        assert(b@.subrange(0, 4)[1] == b@[1]);
                        assert(b@.subrange(0, 4)[2] == b@[2]);
                        assert(b@.subrange(0, 4)[3] == b@[3]);
                    }
                }
            }
        }
    }
    assert(spec_decode_options(b@) == scan_options(b@, i as int, net));
    while i < n
        invariant
            b@.len() == n,
            i <= n,
            scan_options(b@, i as int, net) == spec_decode_options(b@),
        decreases n - i,
    {
        let code = *vstd::slice::slice_index_get(b, i);
        if code == DhcpOptionCode::End.byte() {
            return Ok(net);
        }
        if code == DhcpOptionCode::Pad.byte() {
            i = i + 1;
        } else {
            if i + 1 >= n {
                return Err(DhcpError::OptionDecodeOutOfBounds);
            }
            let len = *vstd::slice::slice_index_get(b, i + 1);
            if n - i - 2 < len as usize {
                return Err(DhcpError::OptionDecodeOutOfBounds);
            }
            if len >= 4 {
                if code == DhcpOptionCode::SubnetMask.byte() {
                    net = Network { netmask: Some(read_value_address(b, i)), ..net };
                } else if code == DhcpOptionCode::Router.byte() {
                    net = Network { gateway: Some(read_value_address(b, i)), ..net };
                } else if code == DhcpOptionCode::DomainNameServer.byte() {
                    net = Network { dns: Some(read_value_address(b, i)), ..net };
                } else if code == DhcpOptionCode::ServerIdentifier.byte() {
                    net = Network { server_identifier: Some(read_value_address(b, i)), ..net };
                }
            }
            i = i + 2 + len as usize;
        }
    }
    Ok(net)
}

/// Appends one `(code, len, value)` record to `out`.
///
/// This is the encoding direction of the codec, used when constructing the
/// Discover's Parameter-Request-List and Client-Identifier options.
pub fn encode_option(out: &mut Vec<u8>, code: DhcpOptionCode, value: &[u8])
    requires
        value@.len() <= 255,
    ensures
        final(out)@ == old(out)@ + seq![code.spec_byte(), value@.len() as u8] + value@,
{
    out.push(code.byte());
    out.push(value.len() as u8);
    let mut k: usize = 0;
    while k < value.len()
        invariant
            k <= value@.len(),
            out@ == old(out)@ + seq![code.spec_byte(), value@.len() as u8] + value@.take(k as int),
        decreases value@.len() - k,
    {
        out.push(*vstd::slice::slice_index_get(value, k));
        proof {
            assert(old(out)@ + seq![code.spec_byte(), value@.len() as u8] + value@.take(k + 1)
                =~= (old(out)@ + seq![code.spec_byte(), value@.len() as u8] + value@.take(k as int)).push(
                value@[k as int],
            ));
        }
        k = k + 1;
    }
    proof {
        assert(value@.take(value@.len() as int) =~= value@);
    }
}

} // verus!

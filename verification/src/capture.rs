//! Offer capture: filters received link-layer frames and matches the DHCP
//! Offer by transaction id.
//!
//! The capture loop itself blocks on a channel and is driven outside the
//! library; each received frame is judged here, and a frame failing any
//! filter is skipped, never an error.

use vstd::prelude::*;
use crate::checksum::{be16_at, be32_at};
use crate::errors::DhcpError;
use crate::options::{spec_decode_options, decode_options, Network};

verus! {

/// Offset of the UDP header within a frame, after the 14-byte Ethernet
/// header and the IPv4 header of the length its header-length field declares.
pub open spec fn udp_offset(f: Seq<u8>) -> int {
    14 + 4 * (f[14] as int % 16)
}

/// Offset of the UDP payload (the DHCP message) within a frame.
pub open spec fn dhcp_offset(f: Seq<u8>) -> int {
    udp_offset(f) + 8
}

/// The six filters an incoming frame must pass to be the awaited Offer:
/// it parses as Ethernet, carries IPv4, parses as IPv4 with next-protocol
/// UDP, parses as UDP with destination port 68 (the DHCP client port), is
/// long enough for a DHCP message, and carries the transaction id `xid`.
pub open spec fn frame_matches_offer(f: Seq<u8>, xid: u32) -> bool {
    &&& f.len() >= 14
    &&& f[12] == 0x08 && f[13] == 0x00
    &&& f.len() >= 34
    &&& f[14] as int % 16 >= 5
    &&& f[23] == 17
    &&& f.len() >= udp_offset(f) + 8
    &&& be16_at(f, udp_offset(f) + 2) == 68
    &&& f.len() >= dhcp_offset(f) + 236
    &&& be32_at(f, dhcp_offset(f) + 4) == xid
}

/// The DHCP message a matching frame carries: everything after its UDP
/// header.
pub open spec fn offer_payload(f: Seq<u8>) -> Seq<u8> {
    f.skip(dhcp_offset(f))
}

/// Judges one received frame: the carried DHCP message when every filter
/// passes, `None` (skip, not error) otherwise.
pub fn match_offer(frame: &[u8], xid: u32) -> (r: Option<Vec<u8>>)
    ensures
        r is Some <==> frame_matches_offer(frame@, xid),
        (match r {
            Some(p) => p@ == offer_payload(frame@),
            None => true,
        }),
{
    let n: usize = frame.len();
    if n < 34 {
        return None;
    }
    if !(*vstd::slice::slice_index_get(frame, 12) == 0x08 && *vstd::slice::slice_index_get(
        frame,
        13,
    ) == 0x00) {
        return None;
    }
    let ihl: usize = (*vstd::slice::slice_index_get(frame, 14) % 16) as usize;
    if ihl < 5 {
        return None;
    }
    if *vstd::slice::slice_index_get(frame, 23) != 17 {
        return None;
    }
    let udp_start: usize = 14 + 4 * ihl;
    if n < udp_start + 8 {
        return None;
    }
    let port_hi = *vstd::slice::slice_index_get(frame, udp_start + 2);
    let port_lo = *vstd::slice::slice_index_get(frame, udp_start + 3);
    if !(port_hi == 0 && port_lo == 68) {
        return None;
    }
    let dhcp_start: usize = udp_start + 8;
    if n - dhcp_start < 236 {
        return None;
    }
    let x = crate::bytes::u32_from_be(
        *vstd::slice::slice_index_get(frame, dhcp_start + 4),
        *vstd::slice::slice_index_get(frame, dhcp_start + 5),
        *vstd::slice::slice_index_get(frame, dhcp_start + 6),
        *vstd::slice::slice_index_get(frame, dhcp_start + 7),
    );
    if x != xid {
        return None;
    }
    let payload = vstd::slice::slice_subrange(frame, dhcp_start, n);
    let out = vstd::slice::slice_to_vec(payload);
    proof {
        assert(out@ =~= offer_payload(frame@));
    }
    Some(out)
}

/// Scans a run of captured frames for the Offer of transaction `xid`: the
/// DHCP message of the first frame that passes every filter, `None` when no
/// frame does.  Frames failing a filter are skipped without error.
pub fn find_offer(frames: &Vec<Vec<u8>>, xid: u32) -> (r: Option<Vec<u8>>)
    ensures
        (match r {
            Some(p) => exists|i: int|
                {
                    &&& 0 <= i < frames@.len()
                    &&& frame_matches_offer(#[trigger] frames@[i]@, xid)
                    &&& p@ == offer_payload(frames@[i]@)
                    &&& forall|j: int|
                        0 <= j < i ==> !frame_matches_offer(#[trigger] frames@[j]@, xid)
                },
            None => forall|i: int|
                0 <= i < frames@.len() ==> !frame_matches_offer(#[trigger] frames@[i]@, xid),
        }),
{
    let n = frames.len();
    let mut i: usize = 0;
    while i < n
        invariant
            frames@.len() == n,
            i <= n,
            forall|j: int| 0 <= j < i ==> !frame_matches_offer(#[trigger] frames@[j]@, xid),
        decreases n - i,
    {
        let got = match_offer((&frames[i]).as_slice(), xid);
        match got {
            Some(p) => {
                proof {
                    assert(frame_matches_offer(frames@[i as int]@, xid));
                }
                return Some(p);
            },
            None => {},
        }
        i = i + 1;
    }
    None
}

/// The retry policy of offer capture: a bounded number of Discover attempts,
/// each watched over its own deadline, with the wait doubling between
/// attempts (saturating).  The blocking read loop itself runs outside the
/// library; this decides when it tries again and when it gives up, so that no
/// capture blocks unboundedly.
pub struct CaptureSchedule {
    pub attempts_left: u32,
    pub wait_ms: u64,
}

impl CaptureSchedule {
    /// A schedule of at most `max_attempts` attempts, the first waiting
    /// `base_wait_ms` milliseconds for an Offer.
    pub fn new(max_attempts: u32, base_wait_ms: u64) -> (r: CaptureSchedule)
        ensures
            r.attempts_left == max_attempts,
            r.wait_ms == base_wait_ms,
    {
        CaptureSchedule { attempts_left: max_attempts, wait_ms: base_wait_ms }
    }

    /// Grants one more Discover attempt with its deadline, or nothing when
    /// the attempts are used up — the capture then ends in `give_up`.
    pub fn next_attempt(&mut self) -> (r: Option<u64>)
        ensures
            old(self).attempts_left == 0 ==> r is None && *final(self) == *old(self),
            old(self).attempts_left > 0 ==> {
                &&& r == Some(old(self).wait_ms)
                &&& final(self).attempts_left == old(self).attempts_left - 1
                &&& final(self).wait_ms == (if old(self).wait_ms <= u64::MAX / 2 {
                    2 * old(self).wait_ms
                } else {
                    u64::MAX as int
                })
            },
    {
        if self.attempts_left == 0 {
            return None;
        }
        self.attempts_left = self.attempts_left - 1;
        let wait = self.wait_ms;
        if self.wait_ms <= u64::MAX / 2 {
            self.wait_ms = 2 * self.wait_ms;
        } else {
            self.wait_ms = u64::MAX;
        }
        Some(wait)
    }

    /// The error an exhausted capture surfaces: the loop ended without a
    /// matching Offer.
    pub fn give_up(&self) -> (r: DhcpError)
        ensures
            r == DhcpError::NoMatchingOffer,
    {
        DhcpError::NoMatchingOffer
    }
}

/// Reads the network parameters out of a captured Offer: the fixed BOOTP
/// fields are stepped over and the options block decoded.  A message shorter
/// than the fixed fields is malformed.
pub fn network_from_offer(payload: &[u8]) -> (r: Result<Network, DhcpError>)
    ensures
        payload@.len() >= 236 ==> r == spec_decode_options(payload@.skip(236)),
        payload@.len() < 236 ==> r == Err::<Network, DhcpError>(DhcpError::MalformedBuffer),
{
    let n = payload.len();
    if n < 236 {
        return Err(DhcpError::MalformedBuffer);
    }
    let options = vstd::slice::slice_subrange(payload, 236, n);
    proof {
        assert(options@ =~= payload@.skip(236));
    }
    decode_options(options)
}

} // verus!

//! Decisions of the netlink configuration manager.
//!
//! The manager mutates and queries the kernel's address and route tables with
//! verify-after-write semantics: the kernel's acknowledgement is never
//! trusted alone; after every accepted mutation the affected table is re-read
//! and the effect must be observed, else the operation ends in
//! `ValidationFailed`.  The netlink session itself is driven outside the
//! library; every decision — how a kernel reply maps to an outcome, which
//! routes a flush deletes, and what the re-read table must show — is made
//! here, on plain values.

use vstd::prelude::*;
use crate::addr::{ip_eq, same_ip, IpAddress, Ipv4Address, Ipv6Address};
use crate::errors::ConfigurationError;

verus! {

/// Linux address families.
pub struct AddressFamily {}

#[allow(non_upper_case_globals)]
impl AddressFamily {
    pub const UNSPEC: u8 = 0;

    pub const LOCAL: u8 = 1;

    pub const UNIX: u8 = 1;

    pub const FILE: u8 = 1;

    pub const INET: u8 = 2;

    pub const AX25: u8 = 3;

    pub const IPX: u8 = 4;

    pub const APPLETALK: u8 = 5;

    pub const NETROM: u8 = 6;

    pub const BRIDGE: u8 = 7;

    pub const ATMPVC: u8 = 8;

    pub const X25: u8 = 9;

    pub const INET6: u8 = 10;

    pub const ROSE: u8 = 11;

    pub const DECnet: u8 = 12;

    pub const NETBEUI: u8 = 13;

    pub const SECURITY: u8 = 14;

    pub const KEY: u8 = 15;

    pub const NETLINK: u8 = 16;

    pub const ROUTE: u8 = 16;

    pub const PACKET: u8 = 17;

    pub const ASH: u8 = 18;

    pub const ECONET: u8 = 19;

    pub const ATMSVC: u8 = 20;

    pub const RDS: u8 = 21;

    pub const SNA: u8 = 22;

    pub const IRDA: u8 = 23;

    pub const PPPOX: u8 = 24;

    pub const WANPIPE: u8 = 25;

    pub const LLC: u8 = 26;

    pub const IB: u8 = 27;

    pub const MPLS: u8 = 28;

    pub const CAN: u8 = 29;

    pub const TIPC: u8 = 30;

    pub const BLUETOOTH: u8 = 31;

    pub const IUCV: u8 = 32;

    pub const RXRPC: u8 = 33;

    pub const ISDN: u8 = 34;

    pub const PHONET: u8 = 35;

    pub const IEEE802154: u8 = 36;

    pub const CAIF: u8 = 37;

    pub const ALG: u8 = 38;

    pub const NFC: u8 = 39;

    pub const VSOCK: u8 = 40;

    pub const KCM: u8 = 41;

    pub const QIPCRTR: u8 = 42;

    pub const SMC: u8 = 43;

    pub const XDP: u8 = 44;

    pub const MCTP: u8 = 45;

    pub const MAX: u8 = 46;
}

/// Route scopes, as the kernel names them.
pub struct Scope {}

impl Scope {
    pub const UNIVERSE: u8 = 0;

    pub const SITE: u8 = 200;

    pub const LINK: u8 = 253;

    pub const HOST: u8 = 254;

    pub const NOWHERE: u8 = 255;
}

/// Routing table ids, as the kernel names them.
pub struct Table {}

impl Table {
    pub const UNSPEC: u32 = 0;

    pub const DEFAULT: u32 = 253;

    pub const LOCAL: u32 = 255;

    pub const MAIN: u32 = 254;
}

/// One entry of the kernel's address table, and the request to add one.
#[derive(Clone, Copy, Debug, PartialEq, Eq)]
pub struct AddressSpec {
    pub interface_index: u32,
    pub ip: IpAddress,
    pub prefix_len: u8,
}

/// An IPv4 route request: destination network and gateway.
#[derive(Clone, Copy, Debug, PartialEq, Eq)]
pub struct Ipv4Route {
    pub destination: Ipv4Address,
    pub gateway: Ipv4Address,
}

/// An IPv6 route request: destination network and gateway.
#[derive(Clone, Copy, Debug, PartialEq, Eq)]
pub struct Ipv6Route {
    pub destination: Ipv6Address,
    pub gateway: Ipv6Address,
}

/// The per-family part of a route request.
#[derive(Clone, Copy, Debug, PartialEq, Eq)]
pub enum VersionOptions {
    V4(Ipv4Route),
    V6(Ipv6Route),
}

/// A route request: output interface, destination prefix length, and the
/// per-family addresses.
#[derive(Clone, Copy, Debug, PartialEq, Eq)]
pub struct Route {
    pub iface_idx: u32,
    pub prefix_len: u8,
    pub version_opts: VersionOptions,
}

/// One entry of the kernel's route table as read back: its output interface,
/// destination, gateway, and the table/scope/protocol tags (set on IPv4
/// routes only).
#[derive(Clone, Copy, Debug, PartialEq, Eq)]
pub struct RouteSpec {
    pub interface_index: u32,
    pub destination: IpAddress,
    pub destination_prefix: u8,
    pub gateway: IpAddress,
    pub table: Option<u32>,
    pub scope: Option<u8>,
    pub protocol: Option<u8>,
}

/// Which IP family a route operation addresses.
#[derive(Clone, Copy, Debug, PartialEq, Eq, Structural)]
pub enum IpVersion {
    V4,
    V6,
}

/// The kernel's answer to one netlink request.
#[derive(Clone, Debug)]
pub enum KernelReply {
    /// The request was accepted.
    Acked,
    /// The kernel refused the request; the detail is its error text.
    Rejected(String),
    /// The socket or connection failed; the detail is the transport's error
    /// text.
    TransportFailed(String),
}

/// Maps the kernel's answer to the outcome of an operation that needs no
/// read-back validation (such as deleting one address).
pub fn kernel_reply_to_result(reply: KernelReply) -> (r: Result<(), ConfigurationError>)
    ensures
        (match reply {
            KernelReply::Acked => r == Ok::<(), ConfigurationError>(()),
            KernelReply::Rejected(d) => r == Err::<(), ConfigurationError>(
                ConfigurationError::KernelRejected(d),
            ),
            KernelReply::TransportFailed(d) => r == Err::<(), ConfigurationError>(
                ConfigurationError::TransportError(d),
            ),
        }),
{
    match reply {
        KernelReply::Acked => Ok(()),
        KernelReply::Rejected(d) => Err(ConfigurationError::KernelRejected(d)),
        KernelReply::TransportFailed(d) => Err(ConfigurationError::TransportError(d)),
    }
}

/// Whether two address-table entries are the same entry.
pub open spec fn addr_spec_eq(x: AddressSpec, y: AddressSpec) -> bool {
    x.interface_index == y.interface_index && ip_eq(x.ip, y.ip) && x.prefix_len == y.prefix_len
}

/// Whether `list` holds the entry `a`.
pub open spec fn address_present(list: Seq<AddressSpec>, a: AddressSpec) -> bool {
    exists|i: int| 0 <= i < list.len() && addr_spec_eq(#[trigger] list[i], a)
}

/// Decides whether the read-back address table holds the entry `a`.
pub fn address_listed(list: &Vec<AddressSpec>, a: &AddressSpec) -> (r: bool)
    ensures
        r == address_present(list@, *a),
{
    let mut i: usize = 0;
    while i < list.len()
        invariant
            i <= list@.len(),
            forall|j: int| 0 <= j < i ==> !addr_spec_eq(#[trigger] list@[j], *a),
        decreases list@.len() - i,
    {
        let entry = &list[i];
        if entry.interface_index == a.interface_index && same_ip(&entry.ip, &a.ip)
            && entry.prefix_len == a.prefix_len {
            return true;
        }
        i = i + 1;
    }
    false
}

/// The outcome of `add_address`: the kernel's answer to the add request, and
/// — only when the kernel accepted — the address table as re-read afterwards.
///
/// The kernel's acknowledgement alone is never trusted: an accepted add whose
/// entry is missing from the read-back ends in `ValidationFailed`.
pub fn add_address(requested: &AddressSpec, reply: KernelReply, readback: &Vec<AddressSpec>) -> (r:
    Result<(), ConfigurationError>)
    ensures
        (match reply {
            KernelReply::Acked => r == (if address_present(readback@, *requested) {
                Ok::<(), ConfigurationError>(())
            } else {
                Err::<(), ConfigurationError>(ConfigurationError::ValidationFailed)
            }),
            KernelReply::Rejected(d) => r == Err::<(), ConfigurationError>(
                ConfigurationError::KernelRejected(d),
            ),
            KernelReply::TransportFailed(d) => r == Err::<(), ConfigurationError>(
                ConfigurationError::TransportError(d),
            ),
        }),
{
    match reply {
        KernelReply::Acked => {
            if address_listed(readback, requested) {
                Ok(())
            } else {
                Err(ConfigurationError::ValidationFailed)
            }
        },
        KernelReply::Rejected(d) => Err(ConfigurationError::KernelRejected(d)),
        KernelReply::TransportFailed(d) => Err(ConfigurationError::TransportError(d)),
    }
}

/// Whether `list` still holds an entry on interface `iface_idx`.
pub open spec fn has_address_for(list: Seq<AddressSpec>, iface_idx: u32) -> bool {
    exists|i: int| 0 <= i < list.len() && (#[trigger] list[i]).interface_index == iface_idx
}

/// The verdict of `flush_addresses`: after every address of the interface
/// was deleted, the table is re-read; the flush fails unless the set read
/// back for that interface is empty.
pub fn flush_addresses(iface_idx: u32, readback: &Vec<AddressSpec>) -> (r: Result<
    (),
    ConfigurationError,
>)
    ensures
        r == (if has_address_for(readback@, iface_idx) {
            Err::<(), ConfigurationError>(ConfigurationError::ValidationFailed)
        } else {
            Ok::<(), ConfigurationError>(())
        }),
{
    let mut i: usize = 0;
    while i < readback.len()
        invariant
            i <= readback@.len(),
            forall|j: int| 0 <= j < i ==> (#[trigger] readback@[j]).interface_index != iface_idx,
        decreases readback@.len() - i,
    {
        if readback[i].interface_index == iface_idx {
            return Err(ConfigurationError::ValidationFailed);
        }
        i = i + 1;
    }
    Ok(())
}

/// Whether route-table entry `r` is bound to interface `iface_idx` as its
/// output interface.
pub open spec fn route_bound_to(r: RouteSpec, iface_idx: u32) -> bool {
    r.interface_index == iface_idx
}

/// The sub-table of `s` bound to interface `iface_idx`, in table order.
pub open spec fn routes_matching(s: Seq<RouteSpec>, iface_idx: u32) -> Seq<RouteSpec>
    decreases s.len(),
{
    if s.len() == 0 {
        Seq::empty()
    } else {
        routes_matching(s.drop_last(), iface_idx) + (if route_bound_to(s.last(), iface_idx) {
            seq![s.last()]
        } else {
            Seq::empty()
        })
    }
}

/// Selects the routes a flush pass must delete: every route of the dump
/// whose output interface equals `iface_idx`, in dump order.
pub fn routes_bound_to(table: &Vec<RouteSpec>, iface_idx: u32) -> (r: Vec<RouteSpec>)
    ensures
        r@ == routes_matching(table@, iface_idx),
{
    let mut out: Vec<RouteSpec> = Vec::new();
    let mut i: usize = 0;
    while i < table.len()
        invariant
            i <= table@.len(),
            out@ == routes_matching(table@.take(i as int), iface_idx),
        decreases table@.len() - i,
    {
        let item = table[i];
        if item.interface_index == iface_idx {
            out.push(item);
        }
        proof {
            assert(table@.take(i + 1).drop_last() =~= table@.take(i as int));
            assert(table@.take(i + 1).last() == table@[i as int]);
            if route_bound_to(table@[i as int], iface_idx) {
                assert(out@ =~= routes_matching(table@.take(i as int), iface_idx) + seq![
                    table@[i as int],
                ]);
            } else {
                assert(out@ =~= routes_matching(table@.take(i as int), iface_idx)
                    + Seq::<RouteSpec>::empty());
            }
        }
        i = i + 1;
    }
    proof {
        assert(table@.take(table@.len() as int) =~= table@);
    }
    out
}

/// Whether `list` holds a route whose output interface is `iface_idx`.
pub open spec fn has_route_for(list: Seq<RouteSpec>, iface_idx: u32) -> bool {
    exists|i: int| 0 <= i < list.len() && route_bound_to(#[trigger] list[i], iface_idx)
}

/// Decides whether the read-back route table holds a route out of
/// `iface_idx`.
pub fn route_listed_for(list: &Vec<RouteSpec>, iface_idx: u32) -> (r: bool)
    ensures
        r == has_route_for(list@, iface_idx),
{
    let mut i: usize = 0;
    while i < list.len()
        invariant
            i <= list@.len(),
            forall|j: int| 0 <= j < i ==> !route_bound_to(#[trigger] list@[j], iface_idx),
        decreases list@.len() - i,
    {
        if list[i].interface_index == iface_idx {
            return true;
        }
        i = i + 1;
    }
    false
}

/// The outcome of `add_route`: the kernel's answer to the add request, and —
/// only when the kernel accepted — the route table of that family as re-read
/// afterwards.  The add is validated by requiring a read-back entry whose
/// output interface matches the request's.
pub fn add_route(route: &Route, reply: KernelReply, readback: &Vec<RouteSpec>) -> (r: Result<
    (),
    ConfigurationError,
>)
    ensures
        (match reply {
            KernelReply::Acked => r == (if has_route_for(readback@, route.iface_idx) {
                Ok::<(), ConfigurationError>(())
            } else {
                Err::<(), ConfigurationError>(ConfigurationError::ValidationFailed)
            }),
            KernelReply::Rejected(d) => r == Err::<(), ConfigurationError>(
                ConfigurationError::KernelRejected(d),
            ),
            KernelReply::TransportFailed(d) => r == Err::<(), ConfigurationError>(
                ConfigurationError::TransportError(d),
            ),
        }),
{
    match reply {
        KernelReply::Acked => {
            if route_listed_for(readback, route.iface_idx) {
                Ok(())
            } else {
                Err(ConfigurationError::ValidationFailed)
            }
        },
        KernelReply::Rejected(d) => Err(ConfigurationError::KernelRejected(d)),
        KernelReply::TransportFailed(d) => Err(ConfigurationError::TransportError(d)),
    }
}

/// The request that makes `gateway` the default IPv4 route out of
/// `iface_idx`: destination 0.0.0.0/0.
pub fn default_route(iface_idx: u32, gateway: Ipv4Address) -> (r: Route)
    ensures
        r.iface_idx == iface_idx,
        r.prefix_len == 0,
        r.version_opts == VersionOptions::V4(
            Ipv4Route { destination: Ipv4Address { a: 0, b: 0, c: 0, d: 0 }, gateway },
        ),
{
    Route {
        iface_idx,
        prefix_len: 0,
        version_opts: VersionOptions::V4(
            Ipv4Route { destination: Ipv4Address { a: 0, b: 0, c: 0, d: 0 }, gateway },
        ),
    }
}

/// `add_route` specialized to the default route `0.0.0.0/0` via `gateway`.
pub fn set_default_route(
    iface_idx: u32,
    gateway: Ipv4Address,
    reply: KernelReply,
    readback: &Vec<RouteSpec>,
) -> (r: Result<(), ConfigurationError>)
    ensures
        (match reply {
            KernelReply::Acked => r == (if has_route_for(readback@, iface_idx) {
                Ok::<(), ConfigurationError>(())
            } else {
                Err::<(), ConfigurationError>(ConfigurationError::ValidationFailed)
            }),
            KernelReply::Rejected(d) => r == Err::<(), ConfigurationError>(
                ConfigurationError::KernelRejected(d),
            ),
            KernelReply::TransportFailed(d) => r == Err::<(), ConfigurationError>(
                ConfigurationError::TransportError(d),
            ),
        }),
{
    let route = default_route(iface_idx, gateway);
    add_route(&route, reply, readback)
}

/// What the driver must do next in a route flush.
#[derive(Debug)]
pub enum FlushStep {
    /// Delete each of these routes, then dump the table again.
    Delete(Vec<RouteSpec>),
    /// The flush is over, with this outcome.
    Done(Result<(), ConfigurationError>),
}

/// The control state of `flush_routes`: every route bound to the interface
/// is deleted across two defensive passes (a route can reappear mid-scan),
/// then a final read-back must show none remain for that interface.
///
/// The driver alternates: dump the route table of the chosen family, feed the
/// dump to `on_dump`, and perform the step handed back.
pub struct FlushRoutesFlow {
    pub iface_idx: u32,
    pub passes_done: u8,
}

impl FlushRoutesFlow {
    /// Opens a flush of every route out of `iface_idx`.
    pub fn new(iface_idx: u32) -> (r: FlushRoutesFlow)
        ensures
            r.iface_idx == iface_idx,
            r.passes_done == 0,
    {
        FlushRoutesFlow { iface_idx, passes_done: 0 }
    }

    /// Consumes one dump of the route table.  During the two delete passes
    /// it hands back exactly the routes of the dump bound to the interface;
    /// the dump after them settles the outcome: success exactly when no
    /// route of that dump is bound to the interface.
    pub fn on_dump(&mut self, dump: &Vec<RouteSpec>) -> (r: FlushStep)
        ensures
            final(self).iface_idx == old(self).iface_idx,
            (match r {
                FlushStep::Delete(d) => old(self).passes_done < 2 && final(self).passes_done
                    == old(self).passes_done + 1 && d@ == routes_matching(
                    dump@,
                    old(self).iface_idx,
                ),
                FlushStep::Done(v) => old(self).passes_done >= 2 && *final(self) == *old(self) && v
                    == (if has_route_for(dump@, old(self).iface_idx) {
                    Err::<(), ConfigurationError>(ConfigurationError::ValidationFailed)
                } else {
                    Ok::<(), ConfigurationError>(())
                }),
            }),
            r is Delete <==> old(self).passes_done < 2,
    {
        if self.passes_done < 2 {
            self.passes_done = self.passes_done + 1;
            FlushStep::Delete(routes_bound_to(dump, self.iface_idx))
        } else {
            if route_listed_for(dump, self.iface_idx) {
                FlushStep::Done(Err(ConfigurationError::ValidationFailed))
            } else {
                FlushStep::Done(Ok(()))
            }
        }
    }
}

} // verus!

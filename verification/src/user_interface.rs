//! Argument types for the surrounding command-line shell, and the address
//! arithmetic behind its interactive device-address prompt.

use vstd::prelude::*;
use crate::addr::Ipv4Address;
use crate::options::Network;

verus! {

/// Arguments given on the command line.
#[derive(Clone, Debug)]
pub struct InlineArgs {
    /// Network interface
    pub interface: Option<String>,
}

/// The settled arguments a run works with.
#[derive(Clone, Debug)]
pub struct Args {
    pub interface: String,
}

/// The lowest and highest assignable host address of the subnet a lease
/// describes: gateway masked by the netmask (plus one, past the network
/// address) up to the gateway joined with the netmask's complement (minus
/// one, short of the broadcast address).
///
/// `None` when the lease carries no netmask or no gateway, or when the subnet
/// is degenerate (no host address fits between its ends).
pub fn get_subnet_limits(network: &Network) -> (r: Option<(Ipv4Address, Ipv4Address)>)
    ensures
        (match r {
            Some(limits) => {
                &&& network.netmask is Some
                &&& network.gateway is Some
                &&& ({
                    let m = network.netmask->Some_0;
                    let g = network.gateway->Some_0;
                    &&& limits.0 == Ipv4Address {
                        a: g.a & m.a,
                        b: g.b & m.b,
                        c: g.c & m.c,
                        d: ((g.d & m.d) + 1) as u8,
                    }
                    &&& limits.1 == Ipv4Address {
                        a: g.a | !m.a,
                        b: g.b | !m.b,
                        c: g.c | !m.c,
                        d: ((g.d | !m.d) - 1) as u8,
                    }
                })
            },
            None => network.netmask is None || network.gateway is None || (
            network.gateway->Some_0.d & network.netmask->Some_0.d) == 255 || (
            network.gateway->Some_0.d | !network.netmask->Some_0.d) == 0,
        }),
{
    let m = match &network.netmask {
        Some(m) => *m,
        None => {
            return None;
        },
    };
    let g = match &network.gateway {
        Some(g) => *g,
        None => {
            return None;
        },
    };
    let low_d: u8 = g.d & m.d;
    let high_d: u8 = g.d | !m.d;
    if low_d == 255 || high_d == 0 {
        return None;
    }
    let lower = Ipv4Address { a: g.a & m.a, b: g.b & m.b, c: g.c & m.c, d: low_d + 1 };
    let upper = Ipv4Address { a: g.a | !m.a, b: g.b | !m.b, c: g.c | !m.c, d: high_d - 1 };
    Some((lower, upper))
}

/// Whether `addr` lies between the subnet limits on each of the first three
/// octets — the part of the prompt's answer the subnet fixes; the final octet
/// is the caller's free choice.
pub fn address_in_limits(addr: &Ipv4Address, lower: &Ipv4Address, upper: &Ipv4Address) -> (r: bool)
    ensures
        r == (lower.a <= addr.a <= upper.a && lower.b <= addr.b <= upper.b && lower.c <= addr.c
            <= upper.c),
{
    lower.a <= addr.a && addr.a <= upper.a && lower.b <= addr.b && addr.b <= upper.b && lower.c
        <= addr.c && addr.c <= upper.c
}

} // verus!

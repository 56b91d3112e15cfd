//! Core logic of a minimal DHCPv4 client.
//!
//! The crate builds raw Ethernet/IPv4/UDP/DHCP Discover frames, matches the
//! resulting Offer by transaction id, decodes DHCP options, and decides and
//! validates kernel address/route configuration changes.  Everything here is
//! pure computation on plain values; sockets and netlink sessions are driven
//! by an unverified shell around this library.

pub mod addr;
pub mod bytes;
pub mod capture;
pub mod checksum;
pub mod config;
pub mod errors;
pub mod options;
pub mod packet;
pub mod user_interface;

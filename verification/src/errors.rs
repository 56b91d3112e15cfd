//! Error taxonomies: one for lease acquisition, one for kernel configuration.

use vstd::prelude::*;

verus! {

/// Failures of packet building, trimming, capture and option decoding.
///
/// All of these abort the current Discover attempt; none aborts the process.
#[derive(Clone, Debug, PartialEq, Eq, Structural)]
pub enum DhcpError {
    /// Trimming or parsing hit an all-zero or truncated buffer.
    MalformedBuffer,
    /// The named interface does not exist or has no hardware address.
    InterfaceNotFound,
    /// The link-layer channel failed or closed.
    CaptureTransportError,
    /// The capture loop ended without a matching Offer.
    NoMatchingOffer,
    /// A declared option length would read past the end of the options buffer.
    OptionDecodeOutOfBounds,
}

/// Failures of netlink address/route configuration.
#[derive(Clone, Debug, PartialEq, Eq)]
pub enum ConfigurationError {
    /// The kernel refused the request outright.
    KernelRejected(String),
    /// The netlink socket or connection failed.
    TransportError(String),
    /// The kernel accepted the request but the effect was not observed on
    /// read-back (a race or a silent no-op).
    ValidationFailed,
}

} // verus!

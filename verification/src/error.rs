//! The ways in which an exchange with the robot controller can fail.

use vstd::prelude::*;

verus! {

/// A failure of the exchange. None of them ends a running session.
#[derive(Clone, Copy, Debug, PartialEq, Eq, Structural)]
pub enum ProtocolError {
    /// A status packet is shorter than its fixed header.
    MalformedPacket,
    /// The record chain of a status packet breaks off inside a record.
    TruncatedRecord,
    /// A control packet could not be handed to the network.
    TransmitFailure,
    /// The team number has no robot controller address.
    AddressResolutionFailure,
}

} // verus!

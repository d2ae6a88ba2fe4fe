//! Status packets, which the robot controller sends to the driver station.
//!
//! A status packet is a fixed header and a chain of diagnostic records.
//! The header is 8 bytes long, but the chain is read from byte 7 on: the
//! last byte of the header, which says whether the controller asks for the
//! date, is at the same time the length byte of the first record. The
//! protocol leaves open whether the two were meant to share that byte;
//! this library takes it that they do.

use vstd::prelude::*;
use crate::driverstation::Mode;
use crate::error::ProtocolError;
use crate::tags::{chain_complete, chain_records, parse_tags, FromRioTag};
use crate::wire::{be_u16, bit, read_be_u16, test_bit};

verus! {

/// Length of the fixed header, the shortest a status packet can be.
pub const HEADER_LEN: usize = 8;

/// Offset of the first byte of the record chain.
pub const CHAIN_OFFSET: usize = 7;

/// The fixed header of a status packet.
#[derive(Clone, Copy, Debug, PartialEq, Eq, Structural)]
pub struct StatusHeader {
    /// Sequence number of the control packet that this packet answers.
    pub sequence: u16,
    pub e_stopped: bool,
    pub brownout: bool,
    pub code_start: bool,
    pub enabled: bool,
    pub mode: Mode,
    pub robot_code: bool,
    pub is_rio: bool,
    pub test: bool,
    pub autonomous: bool,
    pub teleop_code: bool,
    pub disabled: bool,
    /// Battery voltage in 256ths of a volt: the high byte holds the whole
    /// volts, the low byte the fraction.
    pub battery: u16,
    pub request_date: bool,
}

/// A decoded status packet.
#[derive(Clone, Debug, PartialEq, Eq)]
pub struct FromRioUdpPacket {
    pub header: StatusHeader,
    /// The records of the chain, in order; empty when the chain is
    /// truncated.
    pub tags: Vec<FromRioTag>,
    /// Whether the chain breaks off inside a record.
    pub truncated: bool,
}

/// A decoded status packet as a mathematical value.
pub struct StatusPacket {
    pub header: StatusHeader,
    pub tags: Seq<FromRioTag>,
    pub truncated: bool,
}

impl View for FromRioUdpPacket {
    type V = StatusPacket;

    open spec fn view(&self) -> StatusPacket {
        StatusPacket { header: self.header, tags: self.tags@, truncated: self.truncated }
    }
}

/// The header that the first 8 bytes of `s` hold.
pub open spec fn status_header(s: Seq<u8>) -> StatusHeader {
    StatusHeader {
        sequence: be_u16(s, 0),
        e_stopped: bit(s[3], 7),
        brownout: bit(s[3], 4),
        code_start: bit(s[3], 3),
        enabled: bit(s[3], 2),
        mode: Mode::of_byte(s[3]),
        robot_code: bit(s[4], 5),
        is_rio: bit(s[4], 4),
        test: bit(s[4], 3),
        autonomous: bit(s[4], 2),
        teleop_code: bit(s[4], 1),
        disabled: bit(s[4], 0),
        battery: be_u16(s, 5),
        request_date: s[7] != 0,
    }
}

/// The bytes of the packet `s` that hold its record chain.
pub open spec fn status_chain(s: Seq<u8>) -> Seq<u8> {
    s.skip(CHAIN_OFFSET as int)
}

/// What the packet `s` of at least 8 bytes decodes to: its header, and
/// the records of its chain when the chain is made of whole records from
/// end to end. When it is not, the packet is marked as truncated and
/// holds no records.
pub open spec fn status_packet(s: Seq<u8>) -> StatusPacket {
    let chain = status_chain(s);
    if chain_complete(chain) {
        StatusPacket { header: status_header(s), tags: chain_records(chain), truncated: false }
    } else {
        StatusPacket { header: status_header(s), tags: Seq::empty(), truncated: true }
    }
}

impl StatusHeader {
    /// Reads the header from the first 8 bytes of `buf`.
    pub fn read(buf: &[u8]) -> (header: StatusHeader)
        requires
            HEADER_LEN <= buf.len(),
        ensures
            header == status_header(buf@),
    {
        let status = buf[3];
        let trace = buf[4];
        StatusHeader {
            sequence: read_be_u16(buf, 0),
            e_stopped: test_bit(status, 7),
            brownout: test_bit(status, 4),
            code_start: test_bit(status, 3),
            enabled: test_bit(status, 2),
            mode: Mode::from_bits(status),
            robot_code: test_bit(trace, 5),
            is_rio: test_bit(trace, 4),
            test: test_bit(trace, 3),
            autonomous: test_bit(trace, 2),
            teleop_code: test_bit(trace, 1),
            disabled: test_bit(trace, 0),
            battery: read_be_u16(buf, 5),
            request_date: buf[7] != 0,
        }
    }

    /// The whole volts of the battery voltage.
    pub fn battery_volts(&self) -> (volts: u8)
        ensures
            volts == self.battery / 256,
    {
        (self.battery / 256) as u8
    }

    /// The fraction of the battery voltage, in 256ths of a volt.
    pub fn battery_fraction(&self) -> (fraction: u8)
        ensures
            fraction == self.battery % 256,
    {
        (self.battery % 256) as u8
    }
}

impl FromRioUdpPacket {
    /// Decodes a status packet.
    ///
    /// A buffer of fewer than 8 bytes is a `MalformedPacket`. Any other
    /// buffer decodes: its header is always read. When the record chain
    /// breaks off inside a record, the packet comes back with `truncated`
    /// set and with no records, else with all the records of the chain.
    pub fn from_packet(buf: &[u8]) -> (packet: Result<FromRioUdpPacket, ProtocolError>)
        ensures
            packet is Err <==> buf@.len() < HEADER_LEN,
            packet matches Err(e) ==> e == ProtocolError::MalformedPacket,
            packet matches Ok(decoded) ==> decoded@ == status_packet(buf@),
    {
        if buf.len() < HEADER_LEN {
            return Err(ProtocolError::MalformedPacket);
        }
        let header = StatusHeader::read(buf);
        let chain = vstd::slice::slice_subrange(buf, CHAIN_OFFSET, buf.len());
        match parse_tags(chain) {
            Ok(tags) => Ok(FromRioUdpPacket { header, tags, truncated: false }),
            Err(_) => Ok(FromRioUdpPacket { header, tags: Vec::new(), truncated: true }),
        }
    }
}

} // verus!

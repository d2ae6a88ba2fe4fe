//! Control packets, which the driver station sends to the robot
//! controller.
//!
//! A control packet is 6 bytes long: the sequence number, big-endian; the
//! protocol version; the control byte; the request byte; the alliance
//! station.

use vstd::prelude::*;
use crate::driverstation::{alliance_byte, alliance_of_byte, alliance_to_int, Mode, SessionState};
use crate::wire::{be_u16, bit, test_bit};

verus! {

/// The protocol version that every control packet carries in its third
/// byte.
pub const PROTOCOL_VERSION: u8 = 0x01;

/// What a control byte says.
#[derive(Clone, Copy, Debug, PartialEq, Eq, Structural)]
pub struct ControlBits {
    pub e_stopped: bool,
    pub fms_connected: bool,
    pub enabled: bool,
    pub mode: Mode,
}

/// The control byte of `state`: bit 7 for the emergency stop, bit 3 for
/// the field management system, bit 2 for enabled, bits 1 and 0 for the
/// mode; the other bits are 0.
pub open spec fn control_byte(state: SessionState) -> u8 {
    ((if state.e_stopped {
        0x80int
    } else {
        0
    }) + (if state.fms_connected {
        0x08int
    } else {
        0
    }) + (if state.enabled {
        0x04int
    } else {
        0
    }) + state.mode.code()) as u8
}

/// The request byte of `state`: bit 3 asks the controller to restart
/// itself, bit 2 to restart the robot code; the other bits are 0.
pub open spec fn request_byte(state: SessionState) -> u8 {
    ((if state.restart_rio {
        0x08int
    } else {
        0
    }) + (if state.restart_code {
        0x04int
    } else {
        0
    })) as u8
}

/// The six bytes of the control packet of `state`.
pub open spec fn control_packet(state: SessionState) -> Seq<u8> {
    seq![
        (state.sequence / 0x100) as u8,
        (state.sequence % 0x100) as u8,
        PROTOCOL_VERSION,
        control_byte(state),
        request_byte(state),
        alliance_byte(state.alliance) as u8,
    ]
}

/// What the control byte `byte` says. Bits that a control byte never has
/// set are not looked at.
pub open spec fn control_bits(byte: u8) -> ControlBits {
    ControlBits {
        e_stopped: bit(byte, 7),
        fms_connected: bit(byte, 3),
        enabled: bit(byte, 2),
        mode: Mode::of_byte(byte),
    }
}

impl SessionState {
    /// The part of the state that the control byte carries.
    pub open spec fn control_bits(self) -> ControlBits {
        ControlBits {
            e_stopped: self.e_stopped,
            fms_connected: self.fms_connected,
            enabled: self.enabled,
            mode: self.mode,
        }
    }
}

/// Encodes the control packet of `state`.
pub fn encode(state: &SessionState) -> (packet: [u8; 6])
    requires
        state.is_valid(),
    ensures
        packet@ == control_packet(*state),
{
    let mut control: u8 = 0;
    control += if state.e_stopped { 0x80 } else { 0 };
    control += if state.fms_connected { 0x08 } else { 0 };
    control += if state.enabled { 0x04 } else { 0 };
    control += state.mode.to_bits();
    let mut request: u8 = 0;
    request += if state.restart_rio { 0x08 } else { 0 };
    request += if state.restart_code { 0x04 } else { 0 };
    [
        (state.sequence / 0x100) as u8,
        (state.sequence % 0x100) as u8,
        PROTOCOL_VERSION,
        control,
        request,
        alliance_to_int(state.alliance),
    ]
}

/// Decodes a control byte.
pub fn decode_control_bits(byte: u8) -> (bits: ControlBits)
    ensures
        bits == control_bits(byte),
{
    ControlBits {
        e_stopped: test_bit(byte, 7),
        fms_connected: test_bit(byte, 3),
        enabled: test_bit(byte, 2),
        mode: Mode::from_bits(byte),
    }
}

/// How the bits of a byte show in its value.
proof fn lemma_bits_of_byte(b: u8)
    ensures
        bit(b, 0) <==> b % 2 == 1,
        bit(b, 1) <==> (b / 0x02) % 2 == 1,
        bit(b, 2) <==> (b / 0x04) % 2 == 1,
        bit(b, 3) <==> (b / 0x08) % 2 == 1,
        bit(b, 4) <==> (b / 0x10) % 2 == 1,
        bit(b, 5) <==> (b / 0x20) % 2 == 1,
        bit(b, 6) <==> (b / 0x40) % 2 == 1,
        bit(b, 7) <==> b >= 0x80,
{
    assert(bit(b, 0) <==> b % 2 == 1) by (bit_vector);
    assert(bit(b, 1) <==> (b / 0x02) % 2 == 1) by (bit_vector);
    assert(bit(b, 2) <==> (b / 0x04) % 2 == 1) by (bit_vector);
    assert(bit(b, 3) <==> (b / 0x08) % 2 == 1) by (bit_vector);
    assert(bit(b, 4) <==> (b / 0x10) % 2 == 1) by (bit_vector);
    assert(bit(b, 5) <==> (b / 0x20) % 2 == 1) by (bit_vector);
    assert(bit(b, 6) <==> (b / 0x40) % 2 == 1) by (bit_vector);
    assert(bit(b, 7) <==> b >= 0x80) by (bit_vector);
}

/// A control packet can be read back: its control byte decodes to the
/// emergency stop, field management, enabled and mode of the state it was
/// made from, and its other bytes give back the sequence number, the
/// requests and the alliance station.
pub proof fn lemma_control_packet_round_trip(state: SessionState)
    requires
        state.is_valid(),
    ensures
        control_packet(state).len() == 6,
        control_bits(control_packet(state)[3]) == state.control_bits(),
        be_u16(control_packet(state), 0) == state.sequence,
        control_packet(state)[2] == PROTOCOL_VERSION,
        bit(control_packet(state)[4], 3) == state.restart_rio,
        bit(control_packet(state)[4], 2) == state.restart_code,
        alliance_of_byte(control_packet(state)[5]) == state.alliance,
{
    lemma_bits_of_byte(control_byte(state));
    lemma_bits_of_byte(request_byte(state));
}

/// The bits that have no meaning are 0 in every control packet: bits 6, 5
/// and 4 of the control byte, and all bits of the request byte but 3 and
/// 2. The alliance byte is under 6.
pub proof fn lemma_reserved_bits_clear(state: SessionState)
    requires
        state.is_valid(),
    ensures
        !bit(control_byte(state), 6),
        !bit(control_byte(state), 5),
        !bit(control_byte(state), 4),
        !bit(request_byte(state), 7),
        !bit(request_byte(state), 6),
        !bit(request_byte(state), 5),
        !bit(request_byte(state), 4),
        !bit(request_byte(state), 1),
        !bit(request_byte(state), 0),
        control_packet(state)[5] < 6,
{
    lemma_bits_of_byte(control_byte(state));
    lemma_bits_of_byte(request_byte(state));
}

/// The control packet sent after `n` others carries the sequence number
/// of the first plus `n`, modulo 65536.
pub proof fn lemma_sequence_of_packet(state: SessionState, n: nat)
    ensures
        be_u16(control_packet(state.after_ticks(n)), 0) == (state.sequence + n) % 0x1_0000,
{
    state.lemma_after_ticks(n);
}

} // verus!

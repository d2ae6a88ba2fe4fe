//! What the operator asks of the robot: the session state of a driver
//! station, and the values it is made of.

use vstd::prelude::*;
use crate::address::{team_ip, MAX_TEAM_NUMBER};
use crate::control::{control_packet, encode};
use crate::error::ProtocolError;

pub use crate::address::team_number_to_ip;
pub use crate::status::FromRioUdpPacket;
pub use crate::tags::{
    CanMetrics, CpuInfo, DiskInfo, FromRioTag, JoystickOutput, PdpLog, RamInfo, UnknownTag,
};

verus! {

/// The mode the robot runs in.
#[derive(Clone, Copy, Debug, PartialEq, Eq, Structural)]
pub enum Mode {
    Teleop,
    Test,
    Autonomous,
    Invalid,
}

impl Mode {
    /// The number that stands for the mode in the two lowest bits of a
    /// control byte or a status byte.
    pub open spec fn code(self) -> u8 {
        match self {
            Mode::Teleop => 0,
            Mode::Test => 1,
            Mode::Autonomous => 2,
            Mode::Invalid => 3,
        }
    }

    /// The mode that the two lowest bits of `byte` stand for.
    pub open spec fn of_byte(byte: u8) -> Mode {
        let low = byte % 4;
        if low == 0 {
            Mode::Teleop
        } else if low == 1 {
            Mode::Test
        } else if low == 2 {
            Mode::Autonomous
        } else {
            Mode::Invalid
        }
    }

    /// Encodes the mode as a number from 0 to 3.
    pub fn to_bits(self) -> (bits: u8)
        ensures
            bits == self.code(),
            bits < 4,
    {
        match self {
            Mode::Teleop => 0,
            Mode::Test => 1,
            Mode::Autonomous => 2,
            Mode::Invalid => 3,
        }
    }

    /// Decodes the mode from the two lowest bits of `byte`; the other bits
    /// are not looked at.
    pub fn from_bits(byte: u8) -> (mode: Mode)
        ensures
            mode == Mode::of_byte(byte),
    {
        match byte % 4 {
            0 => Mode::Teleop,
            1 => Mode::Test,
            2 => Mode::Autonomous,
            _ => Mode::Invalid,
        }
    }

    /// Decoding undoes encoding, and every number from 0 to 3 is the code
    /// of the mode it decodes to.
    pub proof fn lemma_code_round_trip(mode: Mode, bits: u8)
        ensures
            Mode::of_byte(mode.code()) == mode,
            bits < 4 ==> Mode::of_byte(bits).code() == bits,
    {
    }
}

/// The alliance a team plays for and its station there, counted from 1.
#[derive(Clone, Copy, Debug, PartialEq, Eq, Structural)]
pub enum Alliance {
    Red { val: u8 },
    Blue { val: u8 },
}

impl Alliance {
    /// The station number.
    pub open spec fn station(self) -> u8 {
        match self {
            Alliance::Red { val } => val,
            Alliance::Blue { val } => val,
        }
    }

    /// Whether the station is one of the three that an alliance has.
    pub open spec fn is_valid(self) -> bool {
        1 <= self.station() <= 3
    }

    /// Tests whether the station is one of the three that an alliance has.
    pub fn valid(self) -> (ok: bool)
        ensures
            ok == self.is_valid(),
    {
        match self {
            Alliance::Red { val } => 1 <= val && val <= 3,
            Alliance::Blue { val } => 1 <= val && val <= 3,
        }
    }
}

/// The byte of an alliance station: 0 to 2 for the red stations 1 to 3,
/// 3 to 5 for the blue ones.
pub open spec fn alliance_byte(alliance: Alliance) -> int {
    match alliance {
        Alliance::Red { val } => val - 1,
        Alliance::Blue { val } => val + 2,
    }
}

/// The alliance station of a byte. Bytes under 3 are red, all others blue;
/// the station is the byte's remainder by 3, counted from 1.
pub open spec fn alliance_of_byte(num: u8) -> Alliance {
    if num < 3 {
        Alliance::Red { val: (num % 3 + 1) as u8 }
    } else {
        Alliance::Blue { val: (num % 3 + 1) as u8 }
    }
}

/// Encodes an alliance station as a byte from 0 to 5.
pub fn alliance_to_int(alliance: Alliance) -> (num: u8)
    requires
        alliance.is_valid(),
    ensures
        num == alliance_byte(alliance),
        num < 6,
        alliance_of_byte(num) == alliance,
{
    match alliance {
        Alliance::Red { val } => val - 1,
        Alliance::Blue { val } => val + 2,
    }
}

/// Decodes an alliance station from a byte. Every byte decodes to a valid
/// station.
pub fn alliance_from_int(num: u8) -> (alliance: Alliance)
    ensures
        alliance == alliance_of_byte(num),
        alliance.is_valid(),
        num < 6 ==> alliance_byte(alliance) == num,
{
    if num < 3 {
        Alliance::Red { val: num % 3 + 1 }
    } else {
        Alliance::Blue { val: num % 3 + 1 }
    }
}

/// The six valid alliance stations and the bytes 0 to 5 stand for one
/// another: decoding undoes encoding, and encoding undoes decoding.
pub proof fn lemma_alliance_bijection(alliance: Alliance, num: u8)
    ensures
        alliance.is_valid() ==> 0 <= alliance_byte(alliance) < 6,
        alliance.is_valid() ==> alliance_of_byte(alliance_byte(alliance) as u8) == alliance,
        alliance_of_byte(num).is_valid(),
        num < 6 ==> alliance_byte(alliance_of_byte(num)) == num,
{
}

/// One consistent reading of everything a control packet is made from.
#[derive(Clone, Copy, Debug, PartialEq, Eq, Structural)]
pub struct SessionState {
    pub team_number: u16,
    /// Sequence number that the next control packet will carry.
    pub sequence: u16,
    pub mode: Mode,
    pub enabled: bool,
    pub e_stopped: bool,
    pub fms_connected: bool,
    pub alliance: Alliance,
    /// Asks the controller to restart itself.
    pub restart_rio: bool,
    /// Asks the controller to restart the robot code.
    pub restart_code: bool,
}

impl SessionState {
    /// The state of a session that has just been created for `team`.
    pub open spec fn initial(team: u16) -> SessionState {
        SessionState {
            team_number: team,
            sequence: 0,
            mode: Mode::Teleop,
            enabled: false,
            e_stopped: false,
            fms_connected: false,
            alliance: Alliance::Red { val: 1 },
            restart_rio: false,
            restart_code: false,
        }
    }

    /// Whether a control packet can be made from the state.
    pub open spec fn is_valid(self) -> bool {
        self.alliance.is_valid()
    }

    /// Whether the team number has a robot controller address.
    pub open spec fn has_address(self) -> bool {
        1 <= self.team_number <= MAX_TEAM_NUMBER
    }

    /// The same state with another sequence number.
    pub open spec fn with_sequence(self, sequence: u16) -> SessionState {
        SessionState { sequence, ..self }
    }

    /// The state after one more control packet was sent: the sequence
    /// number has gone up by one, from 65535 back to 0, and nothing else
    /// has changed.
    pub open spec fn ticked(self) -> SessionState {
        self.with_sequence(((self.sequence + 1) % 0x1_0000) as u16)
    }

    /// The state after `n` more control packets were sent.
    pub open spec fn after_ticks(self, n: nat) -> SessionState
        decreases n,
    {
        if n == 0 {
            self
        } else {
            self.after_ticks((n - 1) as nat).ticked()
        }
    }

    /// Sending `n` control packets moves the sequence number `n` steps
    /// round the 65536 values it can take, and leaves the rest of the
    /// state as it was. So the packets sent from a state with sequence
    /// number `s` carry `s`, `s + 1`, `s + 2` and so on, modulo 65536.
    pub proof fn lemma_after_ticks(self, n: nat)
        ensures
            self.after_ticks(n) == self.with_sequence(((self.sequence + n) % 0x1_0000) as u16),
        decreases n,
    {
        if n > 0 {
            self.lemma_after_ticks((n - 1) as nat);
            lemma_mod_shift(self.sequence + n - 1, 1);
        }
    }

    /// The sequence numbers of consecutive control packets go up by one
    /// each, wrapping at 65536: the packet sent after `j` others carries
    /// the number of the packet sent after `i` others plus `j - i`, so no
    /// number is left out, and none comes twice within 65536 packets.
    pub proof fn lemma_sequence_monotonic(self, i: nat, j: nat)
        requires
            i <= j,
        ensures
            self.after_ticks(j).sequence == (self.after_ticks(i).sequence + (j - i)) % 0x1_0000,
            0 < j - i < 0x1_0000 ==> self.after_ticks(j).sequence != self.after_ticks(i).sequence,
    {
        self.lemma_after_ticks(i);
        self.lemma_after_ticks(j);
        lemma_mod_shift(self.sequence + i, j - i);
    }
}

/// Taking the remainder before or after adding `d` gives the same
/// remainder, and adding less than a full turn changes it.
proof fn lemma_mod_shift(x: int, d: int)
    requires
        0 <= x,
        0 <= d,
    ensures
        (x % 0x1_0000 + d) % 0x1_0000 == (x + d) % 0x1_0000,
        0 < d < 0x1_0000 ==> (x + d) % 0x1_0000 != x % 0x1_0000,
{
}

/// The session of a driver station: the state that control packets are
/// made from, kept valid through every change.
#[derive(Clone, Copy, Debug, PartialEq, Eq)]
pub struct DriverStation {
    state: SessionState,
}

impl View for DriverStation {
    type V = SessionState;

    closed spec fn view(&self) -> SessionState {
        self.state
    }
}

impl DriverStation {
    #[verifier::type_invariant]
    spec fn inv(self) -> bool {
        self.state.is_valid()
    }

    /// Creates the session of team `team`: in teleop mode, disabled, on the
    /// first red station, with sequence number 0.
    pub fn new(team: u16) -> (station: DriverStation)
        ensures
            station@ == SessionState::initial(team),
    {
        DriverStation {
            state: SessionState {
                team_number: team,
                sequence: 0,
                mode: Mode::Teleop,
                enabled: false,
                e_stopped: false,
                fms_connected: false,
                alliance: Alliance::Red { val: 1 },
                restart_rio: false,
                restart_code: false,
            },
        }
    }

    /// Reads the whole state at once. The reading is always valid.
    pub fn snapshot(&self) -> (state: SessionState)
        ensures
            state == self@,
            state.is_valid(),
    {
        proof {
            use_type_invariant(self);
        }
        self.state
    }

    /// Encodes the control packet of the state as it is, and counts it:
    /// the packet carries the sequence number that the state had, and the
    /// state moves on to the next.
    pub fn next_control_packet(&mut self) -> (packet: [u8; 6])
        ensures
            packet@ == control_packet(old(self)@),
            final(self)@ == old(self)@.ticked(),
    {
        proof {
            use_type_invariant(&*self);
        }
        let packet = encode(&self.state);
        self.state.sequence = self.state.sequence.wrapping_add(1);
        packet
    }

    /// The address of the robot controller, or `AddressResolutionFailure`
    /// when the team number is 0 or above 9999.
    pub fn robot_address(&self) -> (address: Result<String, ProtocolError>)
        ensures
            address is Ok <==> self@.has_address(),
            address matches Ok(ip) ==> ip@ == team_ip(self@.team_number as int),
            address matches Err(e) ==> e == ProtocolError::AddressResolutionFailure,
    {
        if 1 <= self.state.team_number && self.state.team_number <= MAX_TEAM_NUMBER {
            Ok(team_number_to_ip(self.state.team_number))
        } else {
            Err(ProtocolError::AddressResolutionFailure)
        }
    }
    /// Sets the mode the robot is asked to run in.
    pub fn set_mode(&mut self, mode: Mode)
        ensures
            final(self)@ == (SessionState { mode, ..old(self)@ }),
    {
        proof {
            use_type_invariant(&*self);
        }
        self.state.mode = mode;
    }

    /// Enables or disables the robot.
    pub fn set_enabled(&mut self, enabled: bool)
        ensures
            final(self)@ == (SessionState { enabled, ..old(self)@ }),
    {
        proof {
            use_type_invariant(&*self);
        }
        self.state.enabled = enabled;
    }

    /// Sets or clears the emergency stop.
    pub fn set_e_stopped(&mut self, e_stopped: bool)
        ensures
            final(self)@ == (SessionState { e_stopped, ..old(self)@ }),
    {
        proof {
            use_type_invariant(&*self);
        }
        self.state.e_stopped = e_stopped;
    }

    /// Records whether the field management system is connected.
    pub fn set_fms_connected(&mut self, fms_connected: bool)
        ensures
            final(self)@ == (SessionState { fms_connected, ..old(self)@ }),
    {
        proof {
            use_type_invariant(&*self);
        }
        self.state.fms_connected = fms_connected;
    }

    /// Moves the team to another alliance station. A station other than 1,
    /// 2 or 3 is refused: the call returns `false` and changes nothing.
    pub fn set_alliance(&mut self, alliance: Alliance) -> (accepted: bool)
        ensures
            accepted == alliance.is_valid(),
            accepted ==> final(self)@ == (SessionState { alliance, ..old(self)@ }),
            !accepted ==> final(self)@ == old(self)@,
    {
        proof {
            use_type_invariant(&*self);
        }
        if alliance.valid() {
            self.state.alliance = alliance;
            true
        } else {
            false
        }
    }

    /// Asks, or stops asking, the controller to restart itself.
    pub fn set_restart_rio(&mut self, restart_rio: bool)
        ensures
            final(self)@ == (SessionState { restart_rio, ..old(self)@ }),
    {
        proof {
            use_type_invariant(&*self);
        }
        self.state.restart_rio = restart_rio;
    }

    /// Asks, or stops asking, the controller to restart the robot code.
    pub fn set_restart_code(&mut self, restart_code: bool)
        ensures
            final(self)@ == (SessionState { restart_code, ..old(self)@ }),
    {
        proof {
            use_type_invariant(&*self);
        }
        self.state.restart_code = restart_code;
    }
}

} // verus!

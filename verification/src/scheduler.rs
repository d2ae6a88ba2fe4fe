//! The exchange between driver station and robot controller as a state
//! machine.
//!
//! The caller owns the socket, the clock and the threads. It tells the
//! scheduler what happened, one event at a time, and does what the
//! scheduler answers: open the link, transmit a packet, publish a status,
//! report an error, cancel its duties. The scheduler itself never waits
//! and never fails.

use vstd::prelude::*;
use crate::address::team_ip;
use crate::control::control_packet;
use crate::driverstation::{DriverStation, SessionState};
use crate::error::ProtocolError;
use crate::status::{status_packet, FromRioUdpPacket, StatusPacket, HEADER_LEN};

verus! {

/// Which links of the exchange are up.
#[derive(Clone, Copy, Debug, PartialEq, Eq, Structural)]
pub enum LinkState {
    /// Not started yet.
    Disconnected,
    /// Packets go to and come from the robot controller.
    RobotLinked,
    /// As `RobotLinked`, and the field management system is connected.
    FmsAndRobotLinked,
    /// Stopped for good.
    Stopped,
}

impl LinkState {
    /// Whether control packets are sent and status packets received.
    pub open spec fn is_linked(self) -> bool {
        self == LinkState::RobotLinked || self == LinkState::FmsAndRobotLinked
    }

    /// Tests whether control packets are sent and status packets received.
    pub fn linked(self) -> (linked: bool)
        ensures
            linked == self.is_linked(),
    {
        match self {
            LinkState::RobotLinked => true,
            LinkState::FmsAndRobotLinked => true,
            _ => false,
        }
    }
}

/// Something that happened outside the scheduler.
#[derive(Clone, Debug, PartialEq, Eq)]
pub enum Event {
    /// The caller asks for the exchange to start.
    Start,
    /// The handshake with the field management system succeeded.
    FmsConnected,
    /// The handshake with the field management system failed, or the
    /// system has gone silent.
    FmsLost,
    /// The caller asks for the exchange to stop.
    Stop,
    /// It is time to send the next control packet.
    Tick,
    /// The network refused the control packet of the last tick.
    TransmitFailed,
    /// A datagram came in from the robot controller.
    Datagram(Vec<u8>),
}

/// What the caller is to do after an event.
#[derive(Clone, Debug, PartialEq, Eq)]
pub enum Action {
    /// Nothing.
    Idle,
    /// Open the link to the robot controller at this address, and from now
    /// on hand in a `Tick` at every period and each datagram that comes in.
    OpenLink(String),
    /// Send this control packet.
    Transmit([u8; 6]),
    /// Hand this status packet to whoever reads the robot's status.
    Publish(FromRioUdpPacket),
    /// Tell whoever watches the exchange of this failure, and go on.
    Report(ProtocolError),
    /// Hand in no more ticks and datagrams, and close the link.
    CancelDuties,
}

/// An action as a mathematical value.
pub enum ActionView {
    Idle,
    OpenLink(Seq<char>),
    Transmit(Seq<u8>),
    Publish(StatusPacket),
    Report(ProtocolError),
    CancelDuties,
}

impl View for Action {
    type V = ActionView;

    open spec fn view(&self) -> ActionView {
        match *self {
            Action::Idle => ActionView::Idle,
            Action::OpenLink(address) => ActionView::OpenLink(address@),
            Action::Transmit(packet) => ActionView::Transmit(packet@),
            Action::Publish(packet) => ActionView::Publish(packet@),
            Action::Report(error) => ActionView::Report(error),
            Action::CancelDuties => ActionView::CancelDuties,
        }
    }
}

/// The link state after `event`.
///
/// Starting links the robot when its address can be resolved. The field
/// management link comes and goes only while the robot is linked. A stop
/// request ends the exchange from any state, and nothing leaves `Stopped`.
pub open spec fn next_link(link: LinkState, state: SessionState, event: Event) -> LinkState {
    match event {
        Event::Start => if link == LinkState::Disconnected && state.has_address() {
            LinkState::RobotLinked
        } else {
            link
        },
        Event::FmsConnected => if link == LinkState::RobotLinked {
            LinkState::FmsAndRobotLinked
        } else {
            link
        },
        Event::FmsLost => if link == LinkState::FmsAndRobotLinked {
            LinkState::RobotLinked
        } else {
            link
        },
        Event::Stop => LinkState::Stopped,
        Event::Tick => link,
        Event::TransmitFailed => link,
        Event::Datagram(_) => link,
    }
}

/// The session state after `event`.
///
/// The scheduler sets the field management flag when that link comes up
/// and clears it when it goes down, and counts a control packet on each
/// tick while the robot is linked. It changes nothing else.
pub open spec fn next_session(link: LinkState, state: SessionState, event: Event) -> SessionState {
    match event {
        Event::FmsConnected => if link == LinkState::RobotLinked {
            SessionState { fms_connected: true, ..state }
        } else {
            state
        },
        Event::FmsLost => if link.is_linked() {
            SessionState { fms_connected: false, ..state }
        } else {
            state
        },
        Event::Tick => if link.is_linked() {
            state.ticked()
        } else {
            state
        },
        _ => state,
    }
}

/// What a datagram that came in over the robot link leads to: a report
/// when it is too short for a header or its record chain is truncated,
/// else its publication.
pub open spec fn datagram_action(bytes: Seq<u8>) -> ActionView {
    if bytes.len() < HEADER_LEN {
        ActionView::Report(ProtocolError::MalformedPacket)
    } else if status_packet(bytes).truncated {
        ActionView::Report(ProtocolError::TruncatedRecord)
    } else {
        ActionView::Publish(status_packet(bytes))
    }
}

/// What the caller is to do after `event`.
pub open spec fn action_for(link: LinkState, state: SessionState, event: Event) -> ActionView {
    match event {
        Event::Start => if link != LinkState::Disconnected {
            ActionView::Idle
        } else if state.has_address() {
            ActionView::OpenLink(team_ip(state.team_number as int))
        } else {
            ActionView::Report(ProtocolError::AddressResolutionFailure)
        },
        Event::FmsConnected => ActionView::Idle,
        Event::FmsLost => ActionView::Idle,
        Event::Stop => if link.is_linked() {
            ActionView::CancelDuties
        } else {
            ActionView::Idle
        },
        Event::Tick => if link.is_linked() {
            ActionView::Transmit(control_packet(state))
        } else {
            ActionView::Idle
        },
        Event::TransmitFailed => if link.is_linked() {
            ActionView::Report(ProtocolError::TransmitFailure)
        } else {
            ActionView::Idle
        },
        Event::Datagram(bytes) => if link.is_linked() {
            datagram_action(bytes@)
        } else {
            ActionView::Idle
        },
    }
}

/// Once stopped, the exchange stays stopped: whatever happens, the link
/// state and the session stay as they are and the caller has nothing to
/// do. And a stop request leads there from every state.
pub proof fn lemma_stopped_is_final(link: LinkState, state: SessionState, event: Event)
    ensures
        next_link(link, state, Event::Stop) == LinkState::Stopped,
        next_link(LinkState::Stopped, state, event) == LinkState::Stopped,
        next_session(LinkState::Stopped, state, event) == state,
        action_for(LinkState::Stopped, state, event) == ActionView::Idle,
{
}

/// Decides what becomes of a datagram that came in over the robot link.
pub fn receive(bytes: &[u8]) -> (action: Action)
    ensures
        action@ == datagram_action(bytes@),
{
    match FromRioUdpPacket::from_packet(bytes) {
        Err(error) => Action::Report(error),
        Ok(packet) => if packet.truncated {
            Action::Report(ProtocolError::TruncatedRecord)
        } else {
            Action::Publish(packet)
        },
    }
}

/// The exchange of one driver station as a mathematical value: which
/// links are up, and the state of the session.
pub struct Exchange {
    pub link: LinkState,
    pub session: SessionState,
}

impl Exchange {
    /// The exchange after `event`.
    pub open spec fn after(self, event: Event) -> Exchange {
        Exchange {
            link: next_link(self.link, self.session, event),
            session: next_session(self.link, self.session, event),
        }
    }
}

/// The exchange of one driver station. Its link state changes through
/// `handle` alone.
#[derive(Clone, Copy, Debug, PartialEq, Eq)]
pub struct ExchangeScheduler {
    link: LinkState,
    station: DriverStation,
}

impl View for ExchangeScheduler {
    type V = Exchange;

    closed spec fn view(&self) -> Exchange {
        Exchange { link: self.link, session: self.station@ }
    }
}

impl ExchangeScheduler {
    /// Creates the scheduler of a session, not started yet.
    pub fn new(station: DriverStation) -> (scheduler: ExchangeScheduler)
        ensures
            scheduler@ == (Exchange { link: LinkState::Disconnected, session: station@ }),
    {
        ExchangeScheduler { link: LinkState::Disconnected, station }
    }

    /// Which links are up.
    pub fn link(&self) -> (link: LinkState)
        ensures
            link == self@.link,
    {
        self.link
    }

    /// Reads the whole session state at once.
    pub fn snapshot(&self) -> (state: SessionState)
        ensures
            state == self@.session,
            state.is_valid(),
    {
        self.station.snapshot()
    }

    /// Lends the session out for the operator to change. The link state
    /// stays as it is.
    pub fn station_mut(&mut self) -> (station: &mut DriverStation)
        ensures
            station@ == old(self)@.session,
            final(self)@ == (Exchange { link: old(self)@.link, session: final(station)@ }),
    {
        &mut self.station
    }

    /// Takes in one event: moves to the next link state, updates the
    /// session, and says what the caller is to do.
    pub fn handle(&mut self, event: Event) -> (action: Action)
        ensures
            final(self)@ == old(self)@.after(event),
            action@ == action_for(old(self)@.link, old(self)@.session, event),
    {
        let linked = self.link.linked();
        match event {
            Event::Start => {
                if self.link != LinkState::Disconnected {
                    return Action::Idle;
                }
                match self.station.robot_address() {
                    Ok(address) => {
                        self.link = LinkState::RobotLinked;
                        Action::OpenLink(address)
                    },
                    Err(error) => Action::Report(error),
                }
            },
            Event::FmsConnected => {
                if self.link == LinkState::RobotLinked {
                    self.link = LinkState::FmsAndRobotLinked;
                    self.station.set_fms_connected(true);
                }
                Action::Idle
            },
            Event::FmsLost => {
                if linked {
                    self.link = LinkState::RobotLinked;
                    self.station.set_fms_connected(false);
                }
                Action::Idle
            },
            Event::Stop => {
                self.link = LinkState::Stopped;
                if linked {
                    Action::CancelDuties
                } else {
                    Action::Idle
                }
            },
            Event::Tick => {
                if linked {
                    Action::Transmit(self.station.next_control_packet())
                } else {
                    Action::Idle
                }
            },
            Event::TransmitFailed => {
                if linked {
                    Action::Report(ProtocolError::TransmitFailure)
                } else {
                    Action::Idle
                }
            },
            Event::Datagram(bytes) => {
                if linked {
                    receive(bytes.as_slice())
                } else {
                    Action::Idle
                }
            },
        }
    }
}

} // verus!

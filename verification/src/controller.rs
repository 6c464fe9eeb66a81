//! What passes between a drone and the simulation controller.
use vstd::prelude::*;

use crate::packet::{NodeId, Packet, PacketView};

verus! {

/// What the controller can have a drone do. `C` is the channel to a neighbour.
pub enum DroneCommand<C> {
    /// Forget the neighbour.
    RemoveSender(NodeId),
    /// Reach the neighbour over this channel from now on.
    AddSender(NodeId, C),
    /// Drop fragments at this rate, given by the bits of the number.
    SetPacketDropRate(u32),
    /// Crash, or come back from a crash.
    Crash,
}

/// What came of a command.
#[derive(Clone, Copy, PartialEq, Eq, Structural, Debug)]
pub enum CommandOutcome {
    /// The drone is crashed now.
    Crashed,
    /// The drone came back from a crash.
    Recovered,
    /// The drop rate is set.
    RateSet,
    /// The node is a neighbour now, and was none.
    SenderAdded,
    /// The node was a neighbour, and is reached over another channel now.
    SenderReplaced,
    /// The node is no neighbour any more.
    SenderRemoved,
    /// There was no such neighbour to remove.
    SenderUnknown,
}

/// What a drone tells the controller.
#[derive(PartialEq, Eq, Debug)]
pub enum DroneEvent {
    PacketSent(Packet),
    PacketDropped(Packet),
}

/// The model of a [`DroneEvent`].
#[verifier::ext_equal]
pub enum DroneEventView {
    PacketSent(PacketView),
    PacketDropped(PacketView),
}

impl View for DroneEvent {
    type V = DroneEventView;

    open spec fn view(&self) -> DroneEventView {
        match self {
            DroneEvent::PacketSent(packet) => DroneEventView::PacketSent(packet@),
            DroneEvent::PacketDropped(packet) => DroneEventView::PacketDropped(packet@),
        }
    }
}

} // verus!

//! What a drone decides to do about a packet.
use vstd::prelude::*;

use crate::codes::{SendingCodes, SendingCodesView};
use crate::controller::{DroneEvent, DroneEventView};
use crate::packet::{NodeId, Packet, PacketView};

verus! {

/// One step that a drone has decided on.
#[derive(PartialEq, Eq)]
pub enum Action {
    /// Hand the packet to the channel of the neighbour `to`. `flooding` tells
    /// a packet that goes to every neighbour from one that follows its route.
    Transmit { to: NodeId, packet: Packet, flooding: bool },
    /// Send nothing: the packet has no channel to go to. Tell the controller.
    GiveUp { code: SendingCodes, event: DroneEvent },
    /// Tell the controller.
    Report(DroneEvent),
}

/// The model of an [`Action`].
#[verifier::ext_equal]
pub enum ActionView {
    Transmit { to: NodeId, packet: PacketView, flooding: bool },
    GiveUp { code: SendingCodesView, event: DroneEventView },
    Report(DroneEventView),
}

impl View for Action {
    type V = ActionView;

    open spec fn view(&self) -> ActionView {
        match self {
            Action::Transmit { to, packet, flooding } => ActionView::Transmit {
                to: *to,
                packet: packet@,
                flooding: *flooding,
            },
            Action::GiveUp { code, event } => ActionView::GiveUp { code: code@, event: event@ },
            Action::Report(event) => ActionView::Report(event@),
        }
    }
}

/// The models of a sequence of actions.
pub open spec fn views(actions: Seq<Action>) -> Seq<ActionView> {
    actions.map_values(|action: Action| action@)
}

} // verus!

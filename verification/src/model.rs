//! The model of a drone: its state, and what it does about packets and commands.
use vstd::prelude::*;

use crate::action::ActionView;
use crate::codes::{RoutingCodes, SendingCodesView};
use crate::controller::{CommandOutcome, DroneCommand, DroneEventView};
use crate::packet::{
    FloodRequestView, FloodResponseView, Nack, NackType, NodeId, NodeType, PacketTypeView,
    PacketView, RouteView, Trace,
};

verus! {

/// The nodes of a trace, without what they are.
pub open spec fn nodes(trace: Trace) -> Seq<NodeId> {
    trace.map_values(|node: (NodeId, NodeType)| node.0)
}

impl PacketView {
    /// The index of the fragment that the packet carries, if it carries one.
    pub open spec fn fragment_index(self) -> Option<u64> {
        match self.pack_type {
            PacketTypeView::MsgFragment(fragment) => Some(fragment.fragment_index),
            _ => None,
        }
    }

    /// The refusal of this packet: it goes back the way that the packet came.
    pub open spec fn nack(self, nack_type: NackType, fragment_index: Option<u64>) -> PacketView {
        PacketView {
            routing_header: self.routing_header.way_back(),
            session_id: self.session_id,
            pack_type: PacketTypeView::Nack(
                Nack {
                    fragment_index: match fragment_index {
                        Some(index) => index,
                        None => 0,
                    },
                    nack_type,
                },
            ),
        }
    }

    /// The packet with a flood request in place of what it carries.
    pub open spec fn carrying(self, request: FloodRequestView) -> PacketView {
        PacketView { pack_type: PacketTypeView::FloodRequest(request), ..self }
    }

    /// The packet one hop further on its route.
    pub open spec fn advanced(self) -> PacketView {
        PacketView { routing_header: self.routing_header.advanced(), ..self }
    }
}

impl FloodRequestView {
    /// The request after it passed the drone `id`.
    pub open spec fn passed(self, id: NodeId) -> FloodRequestView {
        FloodRequestView { path_trace: self.path_trace.push((id, NodeType::Drone)), ..self }
    }

    /// The answer to the request: it goes back along the trace.
    pub open spec fn response(self, session_id: u64) -> PacketView {
        PacketView {
            routing_header: RouteView { hop_index: 1, hops: nodes(self.path_trace).reverse() },
            session_id,
            pack_type: PacketTypeView::FloodResponse(
                FloodResponseView { flood_id: self.flood_id, path_trace: self.path_trace },
            ),
        }
    }

    /// The node that the request came from.
    pub open spec fn sender(self) -> NodeId {
        self.path_trace.last().0
    }

    /// What tells this flood from every other.
    pub open spec fn key(self) -> (NodeId, u64) {
        (self.initiator_id, self.flood_id)
    }
}

/// The event that tells the controller of `packet`, as sent or as dropped.
pub open spec fn event_of(packet: PacketView, sent: bool) -> DroneEventView {
    if sent {
        DroneEventView::PacketSent(packet)
    } else {
        DroneEventView::PacketDropped(packet)
    }
}

/// What the controller is told of a packet once a channel accepted or refused
/// it. A packet of a flood that its channel refused counts as dropped; one that
/// follows its route counts as sent either way.
pub open spec fn told(packet: PacketView, flooding: bool, accepted: bool) -> DroneEventView {
    event_of(packet, accepted || !flooding)
}

/// `order` holds the members of `set`, each once.
pub open spec fn lists(order: Seq<NodeId>, set: Set<NodeId>) -> bool {
    &&& order.no_duplicates()
    &&& order.to_set() == set
}

/// `packet`, sent to each node of `order`.
pub open spec fn flood_to(order: Seq<NodeId>, packet: PacketView) -> Seq<ActionView> {
    order.map_values(|to: NodeId| ActionView::Transmit { to, packet, flooding: true })
}

/// `actions` send `packet` to every node of `targets` once, in some order,
/// and do nothing else.
pub open spec fn spreads(
    actions: Seq<ActionView>,
    packet: PacketView,
    targets: Set<NodeId>,
) -> bool {
    exists|order: Seq<NodeId>| #[trigger]
        lists(order, targets) && actions == flood_to(order, packet)
}

/// The state of a drone. `C` is the channel to a neighbour.
#[verifier::ext_equal]
pub struct DroneView<C> {
    pub id: NodeId,
    /// The bits of the packet drop rate.
    pub pdr: u32,
    pub neighbours: Map<NodeId, C>,
    /// The floods that reached the drone, by initiator and flood.
    pub seen: Set<(NodeId, u64)>,
    pub crashed: bool,
}

impl<C> DroneView<C> {
    /// The drone after it did what the controller asked for.
    pub open spec fn commanded(self, command: DroneCommand<C>) -> DroneView<C> {
        match command {
            DroneCommand::Crash => DroneView { crashed: !self.crashed, ..self },
            DroneCommand::SetPacketDropRate(pdr) => DroneView { pdr, ..self },
            DroneCommand::AddSender(node, channel) => DroneView {
                neighbours: self.neighbours.insert(node, channel),
                ..self
            },
            DroneCommand::RemoveSender(node) => DroneView {
                neighbours: self.neighbours.remove(node),
                ..self
            },
        }
    }

    /// What came of a command.
    pub open spec fn outcome(self, command: DroneCommand<C>) -> CommandOutcome {
        match command {
            DroneCommand::Crash => if self.crashed {
                CommandOutcome::Recovered
            } else {
                CommandOutcome::Crashed
            },
            DroneCommand::SetPacketDropRate(_) => CommandOutcome::RateSet,
            DroneCommand::AddSender(node, _) => if self.neighbours.contains_key(node) {
                CommandOutcome::SenderReplaced
            } else {
                CommandOutcome::SenderAdded
            },
            DroneCommand::RemoveSender(node) => if self.neighbours.contains_key(node) {
                CommandOutcome::SenderRemoved
            } else {
                CommandOutcome::SenderUnknown
            },
        }
    }

    /// How a packet that follows its route leaves the drone: over the channel
    /// of the hop where it stands, or not at all.
    pub open spec fn dispatch(self, packet: PacketView) -> ActionView {
        let to = packet.routing_header.hops[packet.routing_header.hop_index];
        if self.neighbours.contains_key(to) {
            ActionView::Transmit { to, packet, flooding: false }
        } else {
            ActionView::GiveUp {
                code: SendingCodesView::NoNextHop("Neighbour not found"@),
                event: event_of(packet, true),
            }
        }
    }

    /// The next hop of the packet is a neighbour.
    pub open spec fn reaches_next_hop(self, packet: PacketView) -> bool {
        packet.routing_header.next_hop() matches Some(next) && self.neighbours.contains_key(next)
    }

    /// What goes out for a packet that has to go on: the packet, one hop
    /// further, or its refusal where the next hop is no neighbour.
    pub open spec fn forwarded(self, packet: PacketView) -> PacketView {
        if self.reaches_next_hop(packet) {
            packet.advanced()
        } else {
            packet.nack(
                NackType::ErrorInRouting(packet.routing_header.next_hop()->0),
                packet.fragment_index(),
            )
        }
    }

    /// The packet is a flood request that the drone takes part in.
    pub open spec fn joins_flood(self, packet: PacketView) -> bool {
        &&& packet.pack_type is FloodRequest
        &&& packet.routing_header.routing_code(self.id) != RoutingCodes::Correct
    }

    /// The packet is a fragment that the drone may drop by chance.
    pub open spec fn may_drop(self, packet: PacketView) -> bool {
        &&& !self.crashed
        &&& packet.pack_type is MsgFragment
        &&& packet.routing_header.routing_code(self.id) == RoutingCodes::Correct
    }

    /// What the drone does about a packet that is no flood to take part in.
    /// `dropped` is the lot that was drawn for it.
    pub open spec fn reactions(self, packet: PacketView, dropped: bool) -> Seq<ActionView> {
        match packet.routing_header.routing_code(self.id) {
            RoutingCodes::Correct => if packet.pack_type is FloodRequest {
                seq![]
            } else if packet.pack_type is MsgFragment && dropped {
                seq![
                    ActionView::Report(event_of(packet, false)),
                    self.dispatch(packet.nack(NackType::Dropped, packet.fragment_index())),
                ]
            } else {
                seq![self.dispatch(self.forwarded(packet))]
            },
            RoutingCodes::DestinationArrived => seq![
                self.dispatch(packet.nack(NackType::DestinationIsDrone, None)),
            ],
            RoutingCodes::HopsMismatch => match packet.routing_header.current_hop() {
                Some(hop) => seq![
                    self.dispatch(
                        packet.nack(NackType::ErrorInRouting(hop), packet.fragment_index()),
                    ),
                ],
                None => seq![
                    ActionView::Report(
                        event_of(packet.nack(NackType::UnexpectedRecipient(self.id), None), false),
                    ),
                ],
            },
        }
    }

    /// The drone after it took note of a flood.
    pub open spec fn noting(self, request: FloodRequestView) -> DroneView<C> {
        DroneView { seen: self.seen.insert(request.key()), ..self }
    }

    /// The neighbours that a flood is handed on to: all but its sender.
    pub open spec fn flood_targets(self, request: FloodRequestView) -> Set<NodeId> {
        self.neighbours.dom().remove(request.sender())
    }

    /// What a flood request does to the drone and has it do, where `packet`
    /// brought it. One that the drone has seen is answered; one that it has
    /// not is noted and handed on to every neighbour but its sender.
    pub open spec fn flooded(
        self,
        request: FloodRequestView,
        packet: PacketView,
        after: DroneView<C>,
        actions: Seq<ActionView>,
    ) -> bool {
        if self.seen.contains(request.key()) {
            &&& after == self
            &&& actions == seq![
                self.dispatch(request.passed(self.id).response(packet.session_id)),
            ]
        } else {
            &&& after == self.noting(request)
            &&& spreads(
                actions,
                packet.carrying(request.passed(self.id)),
                self.flood_targets(request),
            )
        }
    }

    /// What a packet does to the drone and has it do once the drone deals with
    /// it, crashed or not.
    pub open spec fn handled(
        self,
        packet: PacketView,
        dropped: bool,
        after: DroneView<C>,
        actions: Seq<ActionView>,
    ) -> bool {
        if self.joins_flood(packet) {
            self.flooded(packet.pack_type->FloodRequest_0, packet, after, actions)
        } else {
            &&& after == self
            &&& actions == self.reactions(packet, dropped)
        }
    }

    /// The packet is one that the drone drops and refuses because it is crashed.
    pub open spec fn refuses(self, packet: PacketView) -> bool {
        &&& self.crashed
        &&& packet.pack_type is MsgFragment || packet.pack_type is FloodRequest
    }

    /// What an arrival does to the drone and has it do. It is `None` where the
    /// channel brought nothing.
    pub open spec fn behaved(
        self,
        arrival: Option<PacketView>,
        dropped: bool,
        after: DroneView<C>,
        actions: Seq<ActionView>,
    ) -> bool {
        match arrival {
            Some(packet) => if self.refuses(packet) {
                &&& after == self
                &&& actions == seq![
                    ActionView::Report(event_of(packet, false)),
                    self.dispatch(
                        packet.nack(NackType::ErrorInRouting(self.id), packet.fragment_index()),
                    ),
                ]
            } else {
                self.handled(packet, dropped, after, actions)
            },
            None => {
                &&& after == self
                &&& actions == Seq::<ActionView>::empty()
            },
        }
    }

    /// One call of the drone can take it from this state to `after`: a packet
    /// arrives or is dealt with, or the controller gives a command.
    pub open spec fn steps_to(self, after: DroneView<C>) -> bool {
        ||| exists|arrival: Option<PacketView>, dropped: bool, actions: Seq<ActionView>| #[trigger]
            self.behaved(arrival, dropped, after, actions)
        ||| exists|packet: PacketView, dropped: bool, actions: Seq<ActionView>| #[trigger]
            self.handled(packet, dropped, after, actions)
        ||| exists|request: FloodRequestView, packet: PacketView, actions: Seq<ActionView>|
            #[trigger]
            self.flooded(request, packet, after, actions)
        ||| exists|command: DroneCommand<C>| after == #[trigger] self.commanded(command)
    }

    /// The drone can do what it owes the packet: there is a hop for a refusal
    /// to go back to, and a sender in the trace of a flood.
    pub open spec fn handles(self, packet: PacketView, dropped: bool) -> bool {
        if self.joins_flood(packet) {
            packet.pack_type->FloodRequest_0.path_trace.len() > 0
        } else {
            match packet.routing_header.routing_code(self.id) {
                RoutingCodes::Correct => {
                    ||| packet.pack_type is FloodRequest
                    ||| packet.routing_header.answerable()
                    ||| self.reaches_next_hop(packet) && !(packet.pack_type is MsgFragment
                        && dropped)
                },
                RoutingCodes::DestinationArrived => packet.routing_header.answerable(),
                RoutingCodes::HopsMismatch => packet.routing_header.valid_hop_index()
                    ==> packet.routing_header.answerable(),
            }
        }
    }

    /// As [`DroneView::handles`], for a drone that may be crashed.
    pub open spec fn accepts(self, packet: PacketView, dropped: bool) -> bool {
        if self.refuses(packet) {
            packet.routing_header.answerable()
        } else {
            self.handles(packet, dropped)
        }
    }
}

/// The states that a drone goes through, one call after the other.
pub open spec fn is_run<C>(states: Seq<DroneView<C>>) -> bool {
    &&& states.len() > 0
    &&& forall|i: int, j: int|
        0 <= i < j < states.len() && j == i + 1 ==> #[trigger] states[i].steps_to(states[j])
}

} // verus!

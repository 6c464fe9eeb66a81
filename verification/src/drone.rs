//! The drone.
use std::collections::HashMap;

use vstd::prelude::*;

use crate::action::{views, Action, ActionView};
use crate::codes::{RoutingCodes, SendingCodes, SendingCodesView};
use crate::controller::{CommandOutcome, DroneCommand, DroneEvent};
use crate::model::{event_of, flood_to, lists, nodes, told, DroneView};
use crate::packet::{
    FloodRequest, FloodResponse, Nack, NackType, NodeId, NodeType, Packet, PacketType,
    SourceRoutingHeader,
};

verus! {

broadcast use vstd::std_specs::hash::group_hash_axioms;

/// What a drone remembers: the floods that reached it, and whether it crashed.
struct Cache {
    history_floodreq: HashMap<NodeId, Vec<u64>>,
    crashed: bool,
}

/// A drone. `C` is the channel to a neighbour, which it carries but never uses.
#[verifier::reject_recursive_types(C)]
pub struct Drone<C> {
    pub id: NodeId,
    /// The bits of the packet drop rate.
    pub pdr: u32,
    /// The channels to the neighbours.
    pub packet_send: HashMap<NodeId, C>,
    cache: Cache,
}

/// A sequence holds one more element once it is pushed.
proof fn lemma_push_contains<T>(s: Seq<T>, pushed: T)
    ensures
        forall|e: T| #[trigger] s.push(pushed).contains(e) <==> s.contains(e) || e == pushed,
{
    let longer = s.push(pushed);
    assert forall|e: T| #[trigger] longer.contains(e) == (s.contains(e) || e == pushed) by {
        if s.contains(e) {
            assert(longer[s.index_of(e)] == e);
        }
        assert(longer[s.len() as int] == pushed);
    }
}

impl Cache {
    /// The flood `flood_id` of `initiator` is remembered.
    spec fn holds(self, initiator: NodeId, flood_id: u64) -> bool {
        &&& self.history_floodreq@.contains_key(initiator)
        &&& self.history_floodreq@[initiator]@.contains(flood_id)
    }

    /// No flood is remembered twice.
    spec fn wf(self) -> bool {
        forall|initiator: NodeId| #[trigger]
            self.history_floodreq@.contains_key(initiator)
                ==> self.history_floodreq@[initiator]@.no_duplicates()
    }

    /// The floods that are remembered.
    spec fn seen(self) -> Set<(NodeId, u64)> {
        Set::new(|flood: (NodeId, u64)| self.holds(flood.0, flood.1))
    }

    /// Whether the flood is remembered.
    fn contains(&self, initiator: NodeId, flood_id: u64) -> (found: bool)
        ensures
            found == self.seen().contains((initiator, flood_id)),
    {
        match self.history_floodreq.get(&initiator) {
            Some(floods_sent) => {
                let mut i: usize = 0;
                while i < floods_sent.len()
                    invariant
                        i <= floods_sent.len(),
                        forall|j: int| 0 <= j < i ==> floods_sent@[j] != flood_id,
                        self.history_floodreq@.contains_key(initiator),
                        self.history_floodreq@[initiator] == *floods_sent,
                    decreases floods_sent.len() - i,
                {
                    if floods_sent[i] == flood_id {
                        return true;
                    }
                    i += 1;
                }
                false
            },
            None => false,
        }
    }

    /// Remembers a flood.
    fn note(&mut self, initiator: NodeId, flood_id: u64)
        requires
            old(self).wf(),
            !old(self).seen().contains((initiator, flood_id)),
        ensures
            final(self).wf(),
            final(self).seen() == old(self).seen().insert((initiator, flood_id)),
            final(self).crashed == old(self).crashed,
    {
        let floods_sent = self.history_floodreq.entry(initiator).or_insert(Vec::new());
        let ghost before = floods_sent@;
        floods_sent.push(flood_id);
        proof {
            lemma_push_contains(before, flood_id);
            assert(self.history_floodreq@[initiator]@ == before.push(flood_id));
            assert(final(self).seen() =~= old(self).seen().insert((initiator, flood_id)));
        }
    }
}

impl<C> Drone<C> {
    /// The drone remembers no flood twice.
    pub closed spec fn wf(&self) -> bool {
        self.cache.wf()
    }
}

impl<C> View for Drone<C> {
    type V = DroneView<C>;

    closed spec fn view(&self) -> DroneView<C> {
        DroneView {
            id: self.id,
            pdr: self.pdr,
            neighbours: self.packet_send@,
            seen: self.cache.seen(),
            crashed: self.cache.crashed,
        }
    }
}

/// The model of a drone holds its id, its drop rate, its neighbours with their
/// channels, whether it is crashed, and just the floods that it remembers.
proof fn law_drone_view<C>(drone: Drone<C>, initiator: NodeId, flood_id: u64)
    ensures
        drone@.id == drone.id,
        drone@.pdr == drone.pdr,
        drone@.neighbours == drone.packet_send@,
        drone@.crashed == drone.cache.crashed,
        drone@.seen.contains((initiator, flood_id)) <==> {
            let history = drone.cache.history_floodreq@;
            &&& history.contains_key(initiator)
            &&& exists|i: int|
                0 <= i < history[initiator]@.len() && history[initiator]@[i] == flood_id
        },
{
}

impl<C> Drone<C> {
    /// A drone that is up and has seen no flood.
    pub fn new(id: NodeId, packet_send: HashMap<NodeId, C>, pdr: u32) -> (drone: Self)
        ensures
            drone.wf(),
            drone@ == (DroneView {
                id,
                pdr,
                neighbours: packet_send@,
                seen: Set::empty(),
                crashed: false,
            }),
    {
        let drone = Drone {
            id,
            pdr,
            packet_send,
            cache: Cache { history_floodreq: HashMap::new(), crashed: false },
        };
        assert(drone@.seen =~= Set::empty());
        drone
    }

    /// Does what the controller asks for.
    pub fn handle_command(&mut self, command: DroneCommand<C>) -> (outcome: CommandOutcome)
        requires
            old(self).wf(),
        ensures
            final(self).wf(),
            final(self)@ == old(self)@.commanded(command),
            outcome == old(self)@.outcome(command),
    {
        let outcome = match command {
            DroneCommand::Crash => {
                if self.cache.crashed {
                    self.cache.crashed = false;
                    CommandOutcome::Recovered
                } else {
                    self.cache.crashed = true;
                    CommandOutcome::Crashed
                }
            },
            DroneCommand::SetPacketDropRate(pdr) => {
                self.pdr = pdr;
                CommandOutcome::RateSet
            },
            DroneCommand::AddSender(node, channel) => {
                match self.packet_send.insert(node, channel) {
                    Some(_) => CommandOutcome::SenderReplaced,
                    None => CommandOutcome::SenderAdded,
                }
            },
            DroneCommand::RemoveSender(node) => {
                match self.packet_send.remove(&node) {
                    Some(_) => CommandOutcome::SenderRemoved,
                    None => CommandOutcome::SenderUnknown,
                }
            },
        };
        assert(self.cache.seen() =~= old(self).cache.seen());
        outcome
    }

    /// Decides about what the packet channel brought, `None` where it failed.
    /// `dropped` is the lot drawn for a packet that [`Drone::may_drop`] names,
    /// and has no effect on any other.
    pub fn drone_behaviour(&mut self, arrival: Option<Packet>, dropped: bool) -> (actions: Vec<
        Action,
    >)
        requires
            old(self).wf(),
            arrival matches Some(packet) ==> old(self)@.accepts(packet@, dropped),
        ensures
            final(self).wf(),
            old(self)@.behaved(
                match arrival {
                    Some(packet) => Some(packet@),
                    None => None,
                },
                dropped,
                final(self)@,
                views(actions@),
            ),
    {
        match arrival {
            Some(packet) => {
                if self.cache.crashed {
                    match &packet.pack_type {
                        PacketType::Nack(_) | PacketType::Ack(_) | PacketType::FloodResponse(_) => {
                            self.handle_packet(packet, dropped)
                        },
                        PacketType::FloodRequest(_) => {
                            self.drop_packet(packet, NackType::ErrorInRouting(self.id), None)
                        },
                        PacketType::MsgFragment(fragment) => {
                            let index: u64 = fragment.fragment_index;
                            let nack_type = NackType::ErrorInRouting(self.id);
                            self.drop_packet(packet, nack_type, Some(index))
                        },
                    }
                } else {
                    self.handle_packet(packet, dropped)
                }
            },
            None => {
                let actions: Vec<Action> = Vec::new();
                assert(views(actions@) =~= Seq::empty());
                actions
            },
        }
    }

    /// Decides about a packet, by its route and by what it carries.
    pub fn handle_packet(&mut self, packet: Packet, dropped: bool) -> (actions: Vec<Action>)
        requires
            old(self).wf(),
            old(self)@.handles(packet@, dropped),
        ensures
            final(self).wf(),
            old(self)@.handled(packet@, dropped, final(self)@, views(actions@)),
    {
        match self.handle_routing_header(&packet.routing_header) {
            RoutingCodes::Correct => {
                match &packet.pack_type {
                    PacketType::MsgFragment(fragment) => {
                        if dropped {
                            let index: u64 = fragment.fragment_index;
                            self.drop_packet(packet, NackType::Dropped, Some(index))
                        } else {
                            self.pass_on(packet)
                        }
                    },
                    PacketType::Ack(_) | PacketType::Nack(_) | PacketType::FloodResponse(_) => {
                        self.pass_on(packet)
                    },
                    PacketType::FloodRequest(_) => {
                        let actions: Vec<Action> = Vec::new();
                        assert(views(actions@) =~= seq![]);
                        actions
                    },
                }
            },
            RoutingCodes::DestinationArrived => {
                match &packet.pack_type {
                    PacketType::FloodRequest(request) => {
                        let request = request.clone();
                        self.handle_flooding_req(request, packet)
                    },
                    _ => self.answer(packet, NackType::DestinationIsDrone, None),
                }
            },
            RoutingCodes::HopsMismatch => {
                match &packet.pack_type {
                    PacketType::FloodRequest(request) => {
                        let request = request.clone();
                        self.handle_flooding_req(request, packet)
                    },
                    PacketType::MsgFragment(fragment) => {
                        let index: u64 = fragment.fragment_index;
                        self.answer_misrouted(packet, Some(index))
                    },
                    _ => self.answer_misrouted(packet, None),
                }
            },
        }
    }

    /// Whether the drone can do what it owes the packet: refuse it, where it
    /// has to, over a hop that it came from, and hand on a flood that names
    /// its sender.
    pub fn accepts(&self, packet: &Packet, dropped: bool) -> (accepted: bool)
        ensures
            accepted == self@.accepts(packet@, dropped),
    {
        let header = &packet.routing_header;
        let answerable: bool = header.valid_hop_index() && header.hop_index >= 1;
        let reaches: bool = match header.next_hop() {
            Some(next) => self.packet_send.contains_key(&next),
            None => false,
        };
        let code = self.handle_routing_header(header);
        match &packet.pack_type {
            PacketType::FloodRequest(request) => {
                if self.cache.crashed {
                    answerable
                } else {
                    code == RoutingCodes::Correct || request.path_trace.len() > 0
                }
            },
            PacketType::MsgFragment(_) => {
                answerable || !self.cache.crashed && match code {
                    RoutingCodes::Correct => reaches && !dropped,
                    RoutingCodes::DestinationArrived => false,
                    RoutingCodes::HopsMismatch => !header.valid_hop_index(),
                }
            },
            _ => {
                answerable || match code {
                    RoutingCodes::Correct => reaches,
                    RoutingCodes::DestinationArrived => false,
                    RoutingCodes::HopsMismatch => !header.valid_hop_index(),
                }
            },
        }
    }

    /// Whether a lot has to be drawn for the packet: it is a fragment that
    /// stands at this drone, and the drone is up.
    pub fn may_drop(&self, packet: &Packet) -> (may: bool)
        ensures
            may == self@.may_drop(packet@),
    {
        match &packet.pack_type {
            PacketType::MsgFragment(_) => !self.cache.crashed && self.handle_routing_header(
                &packet.routing_header,
            ) == RoutingCodes::Correct,
            _ => false,
        }
    }

    /// What the drone makes of a route.
    pub fn handle_routing_header(&self, srh: &SourceRoutingHeader) -> (code: RoutingCodes)
        ensures
            code == srh@.routing_code(self@.id),
    {
        if srh.valid_hop_index() {
            if srh.is_last_hop() {
                RoutingCodes::DestinationArrived
            } else {
                match srh.current_hop() {
                    Some(hop) => {
                        if hop == self.id {
                            RoutingCodes::Correct
                        } else {
                            RoutingCodes::HopsMismatch
                        }
                    },
                    None => RoutingCodes::HopsMismatch,
                }
            }
        } else {
            RoutingCodes::HopsMismatch
        }
    }

    /// Decides about the flood request `request`, which `packet` brought:
    /// answers it where it came before, else takes note of it and hands it on
    /// to every neighbour but its sender.
    pub fn handle_flooding_req(&mut self, request: FloodRequest, packet: Packet) -> (actions: Vec<
        Action,
    >)
        requires
            old(self).wf(),
            request@.path_trace.len() > 0,
        ensures
            final(self).wf(),
            old(self)@.flooded(request@, packet@, final(self)@, views(actions@)),
    {
        let sender: NodeId = request.path_trace[request.path_trace.len() - 1].0;
        let initiator: NodeId = request.initiator_id;
        let flood_id: u64 = request.flood_id;
        let mut path_trace = request.path_trace;
        path_trace.push((self.id, NodeType::Drone));
        let passed = FloodRequest { flood_id, initiator_id: initiator, path_trace };
        if self.cache.contains(initiator, flood_id) {
            let response = Self::build_packet_flood_response(passed, packet.session_id);
            let actions = vec![self.send_packet(response, None)];
            proof {
                assert(views(actions@) =~= seq![
                    self@.dispatch(request@.passed(self@.id).response(packet@.session_id)),
                ]);
            }
            actions
        } else {
            self.cache.note(initiator, flood_id);
            let flood = Packet {
                session_id: packet.session_id,
                routing_header: packet.routing_header,
                pack_type: PacketType::FloodRequest(passed),
            };
            let targets = self.neighbours_but(sender);
            let mut actions: Vec<Action> = Vec::new();
            let mut i: usize = 0;
            while i < targets.len()
                invariant
                    i <= targets.len(),
                    views(actions@) == flood_to(targets@.take(i as int), flood@),
                decreases targets.len() - i,
            {
                let ghost before = actions@;
                actions.push(self.send_packet(flood.clone(), Some(targets[i])));
                proof {
                    assert(views(actions@) =~= views(before).push(actions@.last()@));
                    assert(targets@.take(i + 1) =~= targets@.take(i as int).push(targets@[i as int]));
                    assert(views(actions@) =~= flood_to(targets@.take(i + 1), flood@));
                }
                i += 1;
            }
            proof {
                assert(targets@.take(i as int) =~= targets@);
                assert(lists(targets@, old(self)@.flood_targets(request@)));
                assert(flood@ =~= packet@.carrying(request@.passed(old(self)@.id)));
            }
            actions
        }
    }

    /// Refuses a packet.
    fn answer(&self, packet: Packet, nack_type: NackType, fragment_index: Option<u64>) -> (actions:
        Vec<Action>)
        requires
            packet@.routing_header.answerable(),
        ensures
            views(actions@) == seq![self@.dispatch(packet@.nack(nack_type, fragment_index))],
    {
        let nack = Self::build_packet_nack(packet, nack_type, fragment_index);
        let actions = vec![self.send_packet(nack, None)];
        assert(views(actions@) =~= seq![self@.dispatch(nack@)]);
        actions
    }

    /// Drops a packet: tells the controller, and refuses the packet.
    fn drop_packet(&self, packet: Packet, nack_type: NackType, fragment_index: Option<u64>) -> (
    actions: Vec<Action>)
        requires
            packet@.routing_header.answerable(),
        ensures
            views(actions@) == seq![
                ActionView::Report(event_of(packet@, false)),
                self@.dispatch(packet@.nack(nack_type, fragment_index)),
            ],
    {
        let report = Action::Report(Self::sendto_controller(packet.clone(), false));
        let nack = Self::build_packet_nack(packet, nack_type, fragment_index);
        let actions = vec![report, self.send_packet(nack, None)];
        assert(views(actions@) =~= seq![report@, self@.dispatch(nack@)]);
        actions
    }

    /// Refuses a packet that does not stand at this drone. One that stands
    /// nowhere on its route has no way back: only the controller hears of it.
    fn answer_misrouted(&self, packet: Packet, fragment_index: Option<u64>) -> (actions: Vec<
        Action,
    >)
        requires
            packet@.routing_header.valid_hop_index() ==> packet@.routing_header.answerable(),
        ensures
            views(actions@) == match packet@.routing_header.current_hop() {
                Some(hop) => seq![
                    self@.dispatch(packet@.nack(NackType::ErrorInRouting(hop), fragment_index)),
                ],
                None => seq![
                    ActionView::Report(
                        event_of(
                            packet@.nack(NackType::UnexpectedRecipient(self@.id), None),
                            false,
                        ),
                    ),
                ],
            },
    {
        match packet.routing_header.current_hop() {
            Some(hop) => self.answer(packet, NackType::ErrorInRouting(hop), fragment_index),
            None => {
                let nack = Self::build_packet_nack(
                    packet,
                    NackType::UnexpectedRecipient(self.id),
                    None,
                );
                let actions = vec![Action::Report(Self::sendto_controller(nack, false))];
                assert(views(actions@) =~= seq![ActionView::Report(event_of(nack@, false))]);
                actions
            },
        }
    }

    /// Sends a packet on that stands at this drone and has a next hop.
    fn pass_on(&self, packet: Packet) -> (actions: Vec<Action>)
        requires
            packet@.routing_header.next_hop() is Some,
            self@.reaches_next_hop(packet@) || packet@.routing_header.answerable(),
        ensures
            views(actions@) == seq![self@.dispatch(self@.forwarded(packet@))],
    {
        let outgoing = self.update_packet_to_forward(packet);
        let actions = vec![self.send_packet(outgoing, None)];
        assert(views(actions@) =~= seq![self@.dispatch(outgoing@)]);
        actions
    }

    /// The neighbours other than `node`, each once.
    fn neighbours_but(&self, node: NodeId) -> (others: Vec<NodeId>)
        ensures
            lists(others@, self@.neighbours.dom().remove(node)),
    {
        let mut others: Vec<NodeId> = Vec::new();
        for neighbour in keys: self.packet_send.keys()
            invariant
                keys.seq().no_duplicates(),
                keys.seq().unref().to_set() == self.packet_send@.dom(),
                others@.no_duplicates(),
                forall|id: NodeId| #[trigger]
                    others@.contains(id) <==> id != node && keys.seq().unref().take(
                        keys.index(),
                    ).contains(id),
        {
            let ghost walked = keys.seq().unref().take(keys.index());
            let ghost before = others@;
            assert(!walked.contains(*neighbour));
            assert(!before.contains(*neighbour));
            if *neighbour != node {
                others.push(*neighbour);
            }
            proof {
                assert(keys.seq().unref().take(keys.index() + 1) =~= walked.push(*neighbour));
                lemma_push_contains(walked, *neighbour);
                lemma_push_contains(before, *neighbour);
            }
        }
        proof {
            let walked = vstd::std_specs::iter::IteratorSpec::remaining(
                &self.packet_send.keys(),
            );
            assert(walked.unref().take(walked.len() as int) =~= walked.unref());
            assert(others@.to_set() =~= self@.neighbours.dom().remove(node));
        }
        others
    }

    /// What goes out for a packet that stands at this drone and has a next
    /// hop: the packet with its index moved on, or its refusal where the next
    /// hop is no neighbour.
    pub fn update_packet_to_forward(&self, packet: Packet) -> (outgoing: Packet)
        requires
            packet@.routing_header.next_hop() is Some,
        ensures
            outgoing@ == self@.forwarded(packet@),
    {
        let nexthop: NodeId = packet.routing_header.next_hop().unwrap();
        if self.packet_send.contains_key(&nexthop) {
            let mut packet = packet;
            assert(packet.routing_header.hops.len() <= usize::MAX);
            packet.routing_header.hop_index = packet.routing_header.hop_index + 1;
            packet
        } else {
            let index: Option<u64> = match &packet.pack_type {
                PacketType::MsgFragment(fragment) => Some(fragment.fragment_index),
                _ => None,
            };
            Self::build_packet_nack(packet, NackType::ErrorInRouting(nexthop), index)
        }
    }

    /// The answer to a flood request: it goes back along the trace.
    pub fn build_packet_flood_response(request: FloodRequest, session_id: u64) -> (response: Packet)
        ensures
            response@ == request@.response(session_id),
    {
        let mut hops: Vec<NodeId> = Vec::new();
        let mut left: usize = request.path_trace.len();
        while left > 0
            invariant
                left <= request.path_trace.len(),
                hops@ == nodes(request.path_trace@.skip(left as int)).reverse(),
            decreases left,
        {
            left -= 1;
            hops.push(request.path_trace[left].0);
        }
        assert(request.path_trace@.skip(0) =~= request.path_trace@);
        Packet {
            routing_header: SourceRoutingHeader { hop_index: 1, hops },
            pack_type: PacketType::FloodResponse(
                FloodResponse { flood_id: request.flood_id, path_trace: request.path_trace },
            ),
            session_id,
        }
    }

    /// The refusal of a packet: it goes back the way that the packet came.
    pub fn build_packet_nack(
        packet: Packet,
        nack_type: NackType,
        fragment_index: Option<u64>,
    ) -> (nack: Packet)
        ensures
            nack@ == packet@.nack(nack_type, fragment_index),
    {
        Packet {
            session_id: packet.session_id,
            routing_header: packet.routing_header.way_back(),
            pack_type: PacketType::Nack(
                Nack {
                    fragment_index: match fragment_index {
                        Some(index) => index,
                        None => 0,
                    },
                    nack_type,
                },
            ),
        }
    }

    /// Decides how a packet leaves: over the given channel as part of a flood,
    /// or over that of the hop where it stands.
    pub fn send_packet(&self, packet: Packet, channel: Option<NodeId>) -> (action: Action)
        requires
            channel is None ==> packet@.routing_header.valid_hop_index(),
        ensures
            action@ == match channel {
                Some(to) => ActionView::Transmit { to, packet: packet@, flooding: true },
                None => self@.dispatch(packet@),
            },
    {
        match channel {
            Some(to) => Action::Transmit { to, packet, flooding: true },
            None => {
                let to: NodeId = packet.routing_header.hops[packet.routing_header.hop_index];
                if self.packet_send.contains_key(&to) {
                    Action::Transmit { to, packet, flooding: false }
                } else {
                    Action::GiveUp {
                        code: SendingCodes::NoNextHop(String::from_str("Neighbour not found")),
                        event: Self::sendto_controller(packet, true),
                    }
                }
            },
        }
    }

    /// What came of a [`Action::Transmit`]: how it ended, and what the
    /// controller is told. `result` is what the channel gave back, with its
    /// words where it refused.
    pub fn sent_packet(packet: Packet, flooding: bool, result: Result<(), String>) -> (outcome: (
        SendingCodes,
        DroneEvent,
    ))
        ensures
            outcome.0@ == match result {
                Ok(_) => SendingCodesView::SuccessfullySent(packet@.session_id),
                Err(reason) => SendingCodesView::ErrorSending(reason@),
            },
            outcome.1@ == told(packet@, flooding, result is Ok),
    {
        match result {
            Ok(_) => {
                let code = SendingCodes::SuccessfullySent(packet.session_id);
                (code, Self::sendto_controller(packet, true))
            },
            Err(reason) => {
                let event = Self::sendto_controller(packet, !flooding);
                (SendingCodes::ErrorSending(reason), event)
            },
        }
    }

    /// The event that tells the controller of a packet, as sent or as dropped.
    pub fn sendto_controller(packet: Packet, sent: bool) -> (event: DroneEvent)
        ensures
            event@ == event_of(packet@, sent),
    {
        if sent {
            DroneEvent::PacketSent(packet)
        } else {
            DroneEvent::PacketDropped(packet)
        }
    }
}

} // verus!

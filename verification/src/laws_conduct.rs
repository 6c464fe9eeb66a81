//! What a drone does about packets and commands, said of hops, neighbours and
//! the fields of packets alone. Together the laws on packets cover every
//! packet: refused by a crashed drone, on its route, at its end, astray, or a
//! flood.
use vstd::prelude::*;

use crate::action::ActionView;
use crate::codes::SendingCodesView;
use crate::controller::{CommandOutcome, DroneCommand, DroneEventView};
use crate::laws::subject;
use crate::model::DroneView;
use crate::packet::{
    FloodRequestView, Nack, NackType, NodeId, NodeType, PacketTypeView, PacketView,
};

verus! {

/// The packet stands at the hop `id` of its route and has another hop to go to.
pub open spec fn stands_at(packet: PacketView, id: NodeId) -> bool {
    let route = packet.routing_header;
    0 <= route.hop_index && route.hop_index + 1 < route.hops.len() && route.hops[route.hop_index]
        == id
}

/// The index of the fragment that the packet carries, zero where it carries none.
pub open spec fn index_or_zero(packet: PacketView) -> u64 {
    match packet.pack_type {
        PacketTypeView::MsgFragment(fragment) => fragment.fragment_index,
        _ => 0,
    }
}

/// `action` sends `packet` to the neighbour at the hop where the packet
/// stands, or, where that is no neighbour, gives it up and says so.
pub open spec fn sends_by_route<C>(
    neighbours: Map<NodeId, C>,
    packet: PacketView,
    action: ActionView,
) -> bool {
    let to = packet.routing_header.hops[packet.routing_header.hop_index];
    if neighbours.contains_key(to) {
        action == (ActionView::Transmit { to, packet, flooding: false })
    } else {
        action == (ActionView::GiveUp {
            code: SendingCodesView::NoNextHop("Neighbour not found"@),
            event: DroneEventView::PacketSent(packet),
        })
    }
}

/// `nack` refuses `packet` for the reason given: it carries the reason and the
/// index, belongs to the session of the packet, and goes back over every hop
/// from the current one to the first.
pub open spec fn refuses_with(
    nack: PacketView,
    packet: PacketView,
    nack_type: NackType,
    fragment_index: u64,
) -> bool {
    let route = packet.routing_header;
    let back = nack.routing_header;
    &&& nack.session_id == packet.session_id
    &&& nack.pack_type == PacketTypeView::Nack(Nack { fragment_index, nack_type })
    &&& back.hop_index == 1
    &&& back.hops.len() == route.hop_index + 1
    &&& forall|k: int|
        0 <= k <= route.hop_index ==> #[trigger] back.hops[k] == route.hops[route.hop_index - k]
}

/// `action` sends a refusal of `packet` back by its route.
pub open spec fn answers_with<C>(
    neighbours: Map<NodeId, C>,
    packet: PacketView,
    nack_type: NackType,
    fragment_index: u64,
    action: ActionView,
) -> bool {
    &&& refuses_with(subject(action), packet, nack_type, fragment_index)
    &&& sends_by_route(neighbours, subject(action), action)
}

/// A packet that leaves by its route goes to the neighbour at the hop where it
/// stands, or is given up.
pub proof fn law_departure<C>(drone: DroneView<C>, packet: PacketView)
    ensures
        sends_by_route(drone.neighbours, packet, drone.dispatch(packet)),
{
}

/// What goes out for a packet with another hop to go to: the packet, moved on
/// by one hop and unchanged otherwise, where that hop is a neighbour; else a
/// refusal that names the hop.
pub proof fn law_outgoing_packet<C>(drone: DroneView<C>, packet: PacketView)
    requires
        0 <= packet.routing_header.hop_index,
        packet.routing_header.hop_index + 1 < packet.routing_header.hops.len(),
    ensures
        ({
            let route = packet.routing_header;
            let next = route.hops[route.hop_index + 1];
            let outgoing = drone.forwarded(packet);
            if drone.neighbours.contains_key(next) {
                &&& outgoing.routing_header.hops == route.hops
                &&& outgoing.routing_header.hop_index == route.hop_index + 1
                &&& outgoing.session_id == packet.session_id
                &&& outgoing.pack_type == packet.pack_type
            } else {
                refuses_with(
                    outgoing,
                    packet,
                    NackType::ErrorInRouting(next),
                    index_or_zero(packet),
                )
            }
        }),
{
}

/// A packet that stands at the drone and is neither a flood request nor a
/// fragment to drop goes to the next hop of its route, where that is a
/// neighbour. Nothing of it changes but its index, which moves on by one.
pub proof fn law_next_hop_gets_the_packet<C>(
    drone: DroneView<C>,
    packet: PacketView,
    dropped: bool,
    after: DroneView<C>,
    actions: Seq<ActionView>,
)
    requires
        drone.handled(packet, dropped, after, actions),
        stands_at(packet, drone.id),
        !(packet.pack_type is FloodRequest),
        !(packet.pack_type is MsgFragment && dropped),
        drone.neighbours.contains_key(
            packet.routing_header.hops[packet.routing_header.hop_index + 1],
        ),
    ensures
        after == drone,
        actions.len() == 1,
        actions[0] is Transmit,
        !actions[0]->flooding,
        actions[0]->to == packet.routing_header.hops[packet.routing_header.hop_index + 1],
        ({
            let sent = subject(actions[0]);
            &&& sent.routing_header.hops == packet.routing_header.hops
            &&& sent.routing_header.hop_index == packet.routing_header.hop_index + 1
            &&& sent.session_id == packet.session_id
            &&& sent.pack_type == packet.pack_type
        }),
{
}

/// Where the next hop of such a packet is no neighbour, the packet is refused
/// with the name of that hop and the index of its fragment.
pub proof fn law_unknown_next_hop_is_refused<C>(
    drone: DroneView<C>,
    packet: PacketView,
    dropped: bool,
    after: DroneView<C>,
    actions: Seq<ActionView>,
)
    requires
        drone.handled(packet, dropped, after, actions),
        stands_at(packet, drone.id),
        !(packet.pack_type is FloodRequest),
        !(packet.pack_type is MsgFragment && dropped),
        !drone.neighbours.contains_key(
            packet.routing_header.hops[packet.routing_header.hop_index + 1],
        ),
    ensures
        after == drone,
        actions.len() == 1,
        answers_with(
            drone.neighbours,
            packet,
            NackType::ErrorInRouting(
                packet.routing_header.hops[packet.routing_header.hop_index + 1],
            ),
            index_or_zero(packet),
            actions[0],
        ),
{
}

/// A fragment that stands at the drone and is to be dropped is reported as
/// dropped, as it came, and refused as dropped, with its own index.
pub proof fn law_drop_names_its_fragment<C>(
    drone: DroneView<C>,
    packet: PacketView,
    after: DroneView<C>,
    actions: Seq<ActionView>,
)
    requires
        drone.handled(packet, true, after, actions),
        stands_at(packet, drone.id),
        packet.pack_type is MsgFragment,
    ensures
        after == drone,
        actions.len() == 2,
        actions[0] == ActionView::Report(DroneEventView::PacketDropped(packet)),
        answers_with(
            drone.neighbours,
            packet,
            NackType::Dropped,
            packet.pack_type->MsgFragment_0.fragment_index,
            actions[1],
        ),
{
}

/// A flood request that stands at the drone and has another hop to go to is
/// left alone.
pub proof fn law_flood_request_on_its_route<C>(
    drone: DroneView<C>,
    packet: PacketView,
    dropped: bool,
    after: DroneView<C>,
    actions: Seq<ActionView>,
)
    requires
        drone.handled(packet, dropped, after, actions),
        stands_at(packet, drone.id),
        packet.pack_type is FloodRequest,
    ensures
        after == drone,
        actions.len() == 0,
{
}

/// A packet at the last hop of its route, whoever that is, is refused because
/// a drone is no destination, unless it is a flood request.
pub proof fn law_end_of_route_is_refused<C>(
    drone: DroneView<C>,
    packet: PacketView,
    dropped: bool,
    after: DroneView<C>,
    actions: Seq<ActionView>,
)
    requires
        drone.handled(packet, dropped, after, actions),
        0 <= packet.routing_header.hop_index,
        packet.routing_header.hop_index + 1 == packet.routing_header.hops.len(),
        !(packet.pack_type is FloodRequest),
    ensures
        after == drone,
        actions.len() == 1,
        answers_with(drone.neighbours, packet, NackType::DestinationIsDrone, 0, actions[0]),
{
}

/// A packet that stands at the hop of another node, with hops to go, is
/// refused with the name of that node and the index of its fragment, unless
/// it is a flood request.
pub proof fn law_stray_packet_is_refused<C>(
    drone: DroneView<C>,
    packet: PacketView,
    dropped: bool,
    after: DroneView<C>,
    actions: Seq<ActionView>,
)
    requires
        drone.handled(packet, dropped, after, actions),
        0 <= packet.routing_header.hop_index,
        packet.routing_header.hop_index + 1 < packet.routing_header.hops.len(),
        packet.routing_header.hops[packet.routing_header.hop_index] != drone.id,
        !(packet.pack_type is FloodRequest),
    ensures
        after == drone,
        actions.len() == 1,
        answers_with(
            drone.neighbours,
            packet,
            NackType::ErrorInRouting(packet.routing_header.hops[packet.routing_header.hop_index]),
            index_or_zero(packet),
            actions[0],
        ),
{
}

/// A packet that stands behind the end of its route goes nowhere, unless it is
/// a flood request: the controller alone hears of it, by a refusal that names
/// this drone and holds the route backwards.
pub proof fn law_packet_off_its_route_is_reported<C>(
    drone: DroneView<C>,
    packet: PacketView,
    dropped: bool,
    after: DroneView<C>,
    actions: Seq<ActionView>,
)
    requires
        drone.handled(packet, dropped, after, actions),
        packet.routing_header.hop_index >= packet.routing_header.hops.len(),
        !(packet.pack_type is FloodRequest),
    ensures
        after == drone,
        actions.len() == 1,
        ({
            let hops = packet.routing_header.hops;
            let nack = subject(actions[0]);
            &&& actions[0] == ActionView::Report(DroneEventView::PacketDropped(nack))
            &&& nack.session_id == packet.session_id
            &&& nack.pack_type == PacketTypeView::Nack(
                Nack { fragment_index: 0, nack_type: NackType::UnexpectedRecipient(drone.id) },
            )
            &&& nack.routing_header.hop_index == 1
            &&& nack.routing_header.hops.len() == hops.len()
            &&& forall|k: int|
                0 <= k < hops.len() ==> #[trigger] nack.routing_header.hops[k] == hops[hops.len()
                    - 1 - k]
        }),
{
}

/// A flood request that does not stand at the drone with hops to go is a flood
/// to take part in, and nothing else.
pub proof fn law_flood_request_is_a_flood<C>(
    drone: DroneView<C>,
    packet: PacketView,
    request: FloodRequestView,
    dropped: bool,
    after: DroneView<C>,
    actions: Seq<ActionView>,
)
    requires
        packet.pack_type == PacketTypeView::FloodRequest(request),
        packet.routing_header.hop_index >= 0,
        !stands_at(packet, drone.id),
    ensures
        drone.handled(packet, dropped, after, actions) == drone.flooded(
            request,
            packet,
            after,
            actions,
        ),
{
}

/// A request of a flood that the drone knows, by initiator and number, is
/// answered and changes nothing. The answer goes to the node that the request
/// came from, back over every node of the trace, this drone first, and carries
/// that trace.
pub proof fn law_known_flood_is_answered<C>(
    drone: DroneView<C>,
    request: FloodRequestView,
    packet: PacketView,
    after: DroneView<C>,
    actions: Seq<ActionView>,
)
    requires
        drone.flooded(request, packet, after, actions),
        drone.seen.contains((request.initiator_id, request.flood_id)),
        request.path_trace.len() > 0,
    ensures
        after == drone,
        actions.len() == 1,
        sends_by_route(drone.neighbours, subject(actions[0]), actions[0]),
        ({
            let answer = subject(actions[0]);
            let hops = answer.routing_header.hops;
            let count = request.path_trace.len();
            &&& answer.session_id == packet.session_id
            &&& answer.routing_header.hop_index == 1
            &&& hops.len() == count + 1
            &&& hops[0] == drone.id
            &&& forall|i: int|
                0 <= i < count ==> #[trigger] hops[i + 1] == request.path_trace[count - 1 - i].0
            &&& answer.pack_type is FloodResponse
            &&& answer.pack_type->FloodResponse_0.flood_id == request.flood_id
            &&& answer.pack_type->FloodResponse_0.path_trace == request.path_trace.push(
                (drone.id, NodeType::Drone),
            )
        }),
{
    let hops = subject(actions[0]).routing_header.hops;
    let count = request.path_trace.len();
    assert forall|i: int| 0 <= i < count implies #[trigger] hops[i + 1] == request.path_trace[count
        - 1 - i].0 by {
        assert(hops[i + 1] == request.passed(drone.id).path_trace[count - 1 - i].0);
    }
}

/// A request of a flood that the drone does not know, by initiator and number,
/// makes that flood known, and no other, and changes nothing else.
pub proof fn law_unknown_flood_is_noted<C>(
    drone: DroneView<C>,
    request: FloodRequestView,
    packet: PacketView,
    after: DroneView<C>,
    actions: Seq<ActionView>,
)
    requires
        drone.flooded(request, packet, after, actions),
        !drone.seen.contains((request.initiator_id, request.flood_id)),
    ensures
        forall|initiator: NodeId, flood_id: u64| #[trigger]
            after.seen.contains((initiator, flood_id)) <==> drone.seen.contains(
                (initiator, flood_id),
            ) || initiator == request.initiator_id && flood_id == request.flood_id,
        after.id == drone.id,
        after.pdr == drone.pdr,
        after.neighbours == drone.neighbours,
        after.crashed == drone.crashed,
{
}

/// Such a request goes to every neighbour but the last node of its trace, to
/// each once, and nowhere else. What goes out is the packet as it came, with
/// this drone at the end of the trace.
pub proof fn law_unknown_flood_is_spread<C>(
    drone: DroneView<C>,
    request: FloodRequestView,
    packet: PacketView,
    after: DroneView<C>,
    actions: Seq<ActionView>,
)
    requires
        drone.flooded(request, packet, after, actions),
        !drone.seen.contains((request.initiator_id, request.flood_id)),
        request.path_trace.len() > 0,
    ensures
        ({
            let from = request.path_trace[request.path_trace.len() - 1].0;
            let flood = PacketView {
                routing_header: packet.routing_header,
                session_id: packet.session_id,
                pack_type: PacketTypeView::FloodRequest(
                    FloodRequestView {
                        flood_id: request.flood_id,
                        initiator_id: request.initiator_id,
                        path_trace: request.path_trace.push((drone.id, NodeType::Drone)),
                    },
                ),
            };
            &&& forall|i: int, j: int|
                0 <= i < j < actions.len() ==> #[trigger] actions[i] != #[trigger] actions[j]
            &&& forall|i: int|
                0 <= i < actions.len() ==> {
                    &&& (#[trigger] actions[i]) is Transmit
                    &&& actions[i]->flooding
                    &&& subject(actions[i]) == flood
                    &&& drone.neighbours.contains_key(actions[i]->to)
                    &&& actions[i]->to != from
                }
            &&& forall|node: NodeId| #[trigger]
                drone.neighbours.contains_key(node) && node != from ==> exists|i: int|
                    0 <= i < actions.len() && (#[trigger] actions[i])->to == node
        }),
{
    crate::laws::law_flood_reaches_all_but_sender(drone, request, packet, after, actions);
    let flood = packet.carrying(request.passed(drone.id));
    assert forall|i: int| 0 <= i < actions.len() implies drone.neighbours.contains_key(
        (#[trigger] actions[i])->to,
    ) && actions[i]->to != request.sender() by {
        let node = actions[i]->to;
        assert(actions.contains(ActionView::Transmit { to: node, packet: flood, flooding: true }));
        assert(drone.neighbours.contains_key(node) || !drone.neighbours.contains_key(node));
    }
    assert forall|node: NodeId| #[trigger]
        drone.neighbours.contains_key(node) && node != request.sender() implies exists|i: int|
        0 <= i < actions.len() && (#[trigger] actions[i])->to == node by {
        let sent = ActionView::Transmit { to: node, packet: flood, flooding: true };
        assert(actions.contains(sent));
        assert(actions[actions.index_of(sent)]->to == node);
    }
}

/// One call takes the drone from `before` to `after`. `request` is the flood
/// request that the drone took part in by it, `None` where it was about
/// anything else.
pub open spec fn call_takes_part_in<C>(
    before: DroneView<C>,
    after: DroneView<C>,
    request: Option<FloodRequestView>,
) -> bool {
    match request {
        Some(request) => {
            ||| exists|packet: PacketView, actions: Seq<ActionView>| #[trigger]
                before.flooded(request, packet, after, actions)
            ||| exists|packet: PacketView, dropped: bool, actions: Seq<ActionView>|
                {
                    &&& #[trigger] before.behaved(Some(packet), dropped, after, actions)
                    &&& packet.pack_type == PacketTypeView::FloodRequest(request)
                    &&& packet.routing_header.hop_index >= 0
                    &&& !before.crashed && !stands_at(packet, before.id)
                }
        },
        None => {
            ||| exists|command: DroneCommand<C>| after == #[trigger] before.commanded(command)
            ||| exists|packet: PacketView, dropped: bool, actions: Seq<ActionView>|
                {
                    &&& #[trigger] before.behaved(Some(packet), dropped, after, actions)
                    &&& packet.pack_type is FloodRequest ==> before.crashed || stands_at(
                        packet,
                        before.id,
                    )
                }
            ||| exists|dropped: bool, actions: Seq<ActionView>| #[trigger]
                before.behaved(None, dropped, after, actions)
        },
    }
}

/// The drone starts with no flood seen and goes through `states`, one call
/// after the other; `requests` are the floods that it took part in, call by
/// call.
pub open spec fn is_history<C>(
    states: Seq<DroneView<C>>,
    requests: Seq<Option<FloodRequestView>>,
) -> bool {
    &&& states.len() == requests.len() + 1
    &&& states[0].seen == Set::<(NodeId, u64)>::empty()
    &&& forall|i: int, j: int|
        0 <= i < requests.len() && j == i + 1 ==> #[trigger] call_takes_part_in(
            states[i],
            states[j],
            requests[i],
        )
}

/// Among `requests` is one of the flood with this initiator and this number.
pub open spec fn has_been_asked(
    requests: Seq<Option<FloodRequestView>>,
    initiator: NodeId,
    flood_id: u64,
) -> bool {
    exists|i: int|
        {
            &&& 0 <= i < requests.len()
            &&& (#[trigger] requests[i]) is Some
            &&& requests[i]->0.initiator_id == initiator
            &&& requests[i]->0.flood_id == flood_id
        }
}

/// A drone knows just the floods of which it got a request, by initiator and
/// number, whatever else it went through.
pub proof fn law_drone_knows_what_it_was_asked<C>(
    states: Seq<DroneView<C>>,
    requests: Seq<Option<FloodRequestView>>,
    initiator: NodeId,
    flood_id: u64,
)
    requires
        is_history(states, requests),
    ensures
        states.last().seen.contains((initiator, flood_id)) <==> has_been_asked(
            requests,
            initiator,
            flood_id,
        ),
    decreases requests.len(),
{
    if requests.len() > 0 {
        let n = requests.len() - 1;
        let states0 = states.drop_last();
        let requests0 = requests.drop_last();
        assert forall|i: int, j: int|
            0 <= i < requests0.len() && j == i + 1 implies #[trigger] call_takes_part_in(
            states0[i],
            states0[j],
            requests0[i],
        ) by {
            assert(call_takes_part_in(states[i], states[j], requests[i]));
        }
        law_drone_knows_what_it_was_asked(states0, requests0, initiator, flood_id);
        let before = states[n];
        let after = states[n + 1];
        assert(call_takes_part_in(before, after, requests[n]));
        if has_been_asked(requests0, initiator, flood_id) {
            let i = choose|i: int|
                {
                    &&& 0 <= i < requests0.len()
                    &&& (#[trigger] requests0[i]) is Some
                    &&& requests0[i]->0.initiator_id == initiator
                    &&& requests0[i]->0.flood_id == flood_id
                };
            assert(requests[i] == requests0[i]);
        }
        if has_been_asked(requests, initiator, flood_id) && !has_been_asked(
            requests0,
            initiator,
            flood_id,
        ) {
            let i = choose|i: int|
                {
                    &&& 0 <= i < requests.len()
                    &&& (#[trigger] requests[i]) is Some
                    &&& requests[i]->0.initiator_id == initiator
                    &&& requests[i]->0.flood_id == flood_id
                };
            if i < n {
                assert(requests0[i] == requests[i]);
            }
        }
    }
}

/// From its start on, a drone answers a flood request if and only if it got a
/// request with the same initiator and the same number before; every other
/// request it hands on, to every neighbour but the last node of the trace.
pub proof fn law_only_repeated_floods_are_answered<C>(
    states: Seq<DroneView<C>>,
    requests: Seq<Option<FloodRequestView>>,
    request: FloodRequestView,
    packet: PacketView,
    after: DroneView<C>,
    actions: Seq<ActionView>,
)
    requires
        is_history(states, requests),
        request.path_trace.len() > 0,
        states.last().flooded(request, packet, after, actions),
    ensures
        has_been_asked(requests, request.initiator_id, request.flood_id) ==> {
            &&& after == states.last()
            &&& actions.len() == 1
            &&& subject(actions[0]).pack_type is FloodResponse
        },
        !has_been_asked(requests, request.initiator_id, request.flood_id) ==> {
            let neighbours = states.last().neighbours;
            let from = request.path_trace[request.path_trace.len() - 1].0;
            &&& forall|i: int|
                0 <= i < actions.len() ==> {
                    &&& (#[trigger] actions[i]) is Transmit
                    &&& subject(actions[i]).pack_type is FloodRequest
                    &&& neighbours.contains_key(actions[i]->to)
                    &&& actions[i]->to != from
                }
            &&& forall|node: NodeId| #[trigger]
                neighbours.contains_key(node) && node != from ==> exists|i: int|
                    0 <= i < actions.len() && (#[trigger] actions[i])->to == node
        },
{
    law_drone_knows_what_it_was_asked(states, requests, request.initiator_id, request.flood_id);
    if has_been_asked(requests, request.initiator_id, request.flood_id) {
        law_known_flood_is_answered(states.last(), request, packet, after, actions);
    } else {
        law_unknown_flood_is_spread(states.last(), request, packet, after, actions);
    }
}

/// A crashed drone reports a fragment or a flood request as dropped, as it
/// came, and refuses it with its own name and the index of its fragment. To
/// all else that arrives, and while it is up to all, a drone does what it does
/// about a packet; and where nothing arrives it does nothing.
pub proof fn law_arrivals<C>(
    drone: DroneView<C>,
    packet: PacketView,
    dropped: bool,
    after: DroneView<C>,
    actions: Seq<ActionView>,
)
    ensures
        ({
            &&& drone.crashed
            &&& packet.pack_type is MsgFragment || packet.pack_type is FloodRequest
            &&& 0 <= packet.routing_header.hop_index < packet.routing_header.hops.len()
            &&& drone.behaved(Some(packet), dropped, after, actions)
        }) ==> {
            &&& after == drone
            &&& actions.len() == 2
            &&& actions[0] == ActionView::Report(DroneEventView::PacketDropped(packet))
            &&& answers_with(
                drone.neighbours,
                packet,
                NackType::ErrorInRouting(drone.id),
                index_or_zero(packet),
                actions[1],
            )
        },
        !drone.crashed || packet.pack_type is Ack || packet.pack_type is Nack
            || packet.pack_type is FloodResponse ==> drone.behaved(
            Some(packet),
            dropped,
            after,
            actions,
        ) == drone.handled(packet, dropped, after, actions),
        drone.behaved(None, dropped, after, actions) <==> after == drone && actions.len() == 0,
{
    if actions.len() == 0 {
        assert(actions =~= Seq::empty());
    }
}

/// Whether a lot is drawn: for a fragment that stands at the drone with hops
/// to go, while the drone is up, and for nothing else.
pub proof fn law_lots<C>(drone: DroneView<C>, packet: PacketView)
    requires
        packet.routing_header.hop_index >= 0,
    ensures
        drone.may_drop(packet) <==> !drone.crashed && packet.pack_type is MsgFragment
            && stands_at(packet, drone.id),
{
}

/// Which packets a drone can deal with: flood requests on their route; other
/// flood requests that name their sender; packets behind the end of their
/// route; packets past their first hop; and, of those at their first hop, just
/// the ones that go on to a neighbour.
pub proof fn law_handles<C>(drone: DroneView<C>, packet: PacketView, dropped: bool)
    requires
        packet.routing_header.hop_index >= 0,
    ensures
        packet.pack_type matches PacketTypeView::FloodRequest(request) ==> (drone.handles(
            packet,
            dropped,
        ) <==> stands_at(packet, drone.id) || request.path_trace.len() > 0),
        !(packet.pack_type is FloodRequest) ==> (drone.handles(packet, dropped) <==> {
            ||| packet.routing_header.hop_index > 0
            ||| packet.routing_header.hops.len() == 0
            ||| {
                &&& stands_at(packet, drone.id)
                &&& drone.neighbours.contains_key(packet.routing_header.hops[1])
                &&& !(packet.pack_type is MsgFragment && dropped)
            }
        }),
{
}

/// Which packets a drone can take in: what it can deal with, and, while it is
/// crashed, of fragments and flood requests those that stand at a hop of their
/// route past the first.
pub proof fn law_accepts<C>(drone: DroneView<C>, packet: PacketView, dropped: bool)
    ensures
        drone.crashed && (packet.pack_type is MsgFragment || packet.pack_type is FloodRequest) ==> (
        drone.accepts(packet, dropped) <==> 0 < packet.routing_header.hop_index
            < packet.routing_header.hops.len()),
        !(drone.crashed && (packet.pack_type is MsgFragment || packet.pack_type is FloodRequest))
            ==> drone.accepts(packet, dropped) == drone.handles(packet, dropped),
{
}

/// Once a neighbour is added, in whatever state, it is a neighbour over that
/// channel. Every other neighbour, and all else, is as before.
pub proof fn law_added_sender<C>(drone: DroneView<C>, node: NodeId, channel: C, other: NodeId)
    ensures
        ({
            let after = drone.commanded(DroneCommand::AddSender(node, channel));
            &&& after.neighbours.contains_key(node)
            &&& after.neighbours[node] == channel
            &&& other != node ==> (after.neighbours.contains_key(other)
                <==> drone.neighbours.contains_key(other))
            &&& other != node && drone.neighbours.contains_key(other) ==> after.neighbours[other]
                == drone.neighbours[other]
            &&& after.id == drone.id
            &&& after.pdr == drone.pdr
            &&& after.seen == drone.seen
            &&& after.crashed == drone.crashed
        }),
        drone.outcome(DroneCommand::AddSender(node, channel)) == (if drone.neighbours.contains_key(
            node,
        ) {
            CommandOutcome::SenderReplaced
        } else {
            CommandOutcome::SenderAdded
        }),
{
}

/// Once a neighbour is removed, in whatever state, it is none. Every other
/// neighbour, and all else, is as before.
pub proof fn law_removed_sender<C>(drone: DroneView<C>, node: NodeId, other: NodeId)
    ensures
        ({
            let after = drone.commanded(DroneCommand::RemoveSender(node));
            &&& !after.neighbours.contains_key(node)
            &&& other != node ==> (after.neighbours.contains_key(other)
                <==> drone.neighbours.contains_key(other))
            &&& other != node && drone.neighbours.contains_key(other) ==> after.neighbours[other]
                == drone.neighbours[other]
            &&& after.id == drone.id
            &&& after.pdr == drone.pdr
            &&& after.seen == drone.seen
            &&& after.crashed == drone.crashed
        }),
        drone.outcome(DroneCommand::RemoveSender(node)) == (if drone.neighbours.contains_key(
            node,
        ) {
            CommandOutcome::SenderRemoved
        } else {
            CommandOutcome::SenderUnknown
        }),
{
}

/// The drop rate becomes the one that is set, whichever it is and whatever it
/// was, and nothing else changes.
pub proof fn law_drop_rate_is_set<C>(drone: DroneView<C>, pdr: u32)
    ensures
        ({
            let after = drone.commanded(DroneCommand::SetPacketDropRate(pdr));
            &&& after.pdr == pdr
            &&& after.id == drone.id
            &&& after.neighbours == drone.neighbours
            &&& after.seen == drone.seen
            &&& after.crashed == drone.crashed
        }),
        drone.outcome(DroneCommand::SetPacketDropRate(pdr)) == CommandOutcome::RateSet,
{
}

/// To crash turns a drone that is up into one that is crashed, and back, and
/// changes nothing else.
pub proof fn law_crash_is_a_switch<C>(drone: DroneView<C>)
    ensures
        ({
            let after = drone.commanded(DroneCommand::Crash);
            &&& after.crashed <==> !drone.crashed
            &&& after.id == drone.id
            &&& after.pdr == drone.pdr
            &&& after.neighbours == drone.neighbours
            &&& after.seen == drone.seen
        }),
        drone.outcome(DroneCommand::Crash) == (if drone.crashed {
            CommandOutcome::Recovered
        } else {
            CommandOutcome::Crashed
        }),
{
}

} // verus!

//! What holds of a drone over several calls, and of all that it sends.
use vstd::prelude::*;

use crate::action::ActionView;
use crate::codes::RoutingCodes;
use crate::controller::{DroneCommand, DroneEventView};
use crate::model::{flood_to, is_run, lists, told, DroneView};
use crate::packet::{
    FloodRequestView, NackType, NodeId, NodeType, PacketView,
};

verus! {

/// The packet that an action sends, or tells the controller of.
pub open spec fn subject(action: ActionView) -> PacketView {
    match action {
        ActionView::Transmit { packet, .. } => packet,
        ActionView::GiveUp { event, .. } => reported(event),
        ActionView::Report(event) => reported(event),
    }
}

/// The packet that an event speaks of.
pub open spec fn reported(event: DroneEventView) -> PacketView {
    match event {
        DroneEventView::PacketSent(packet) => packet,
        DroneEventView::PacketDropped(packet) => packet,
    }
}

/// What the controller hears once the action is done, where `accepted` tells
/// whether the channel took the packet.
pub open spec fn heard(action: ActionView, accepted: bool) -> DroneEventView {
    match action {
        ActionView::Transmit { packet, flooding, .. } => told(packet, flooding, accepted),
        ActionView::GiveUp { event, .. } => event,
        ActionView::Report(event) => event,
    }
}

/// A drone that crashes and comes back is the drone that it was.
pub proof fn law_crash_and_recovery<C>(drone: DroneView<C>)
    ensures
        drone.commanded(DroneCommand::Crash).crashed != drone.crashed,
        drone.commanded(DroneCommand::Crash).commanded(DroneCommand::Crash) == drone,
{
}

/// Of two channels given for one neighbour the later one counts.
pub proof fn law_later_sender_counts<C>(
    drone: DroneView<C>,
    node: NodeId,
    earlier: C,
    later: C,
)
    ensures
        drone.commanded(DroneCommand::AddSender(node, earlier)).commanded(
            DroneCommand::AddSender(node, later),
        ) == drone.commanded(DroneCommand::AddSender(node, later)),
{
    assert(drone.neighbours.insert(node, earlier).insert(node, later)
        =~= drone.neighbours.insert(node, later));
}

/// A neighbour that is added and then removed is none, and no other neighbour
/// is touched.
pub proof fn law_remove_undoes_add<C>(drone: DroneView<C>, node: NodeId, channel: C)
    ensures
        drone.commanded(DroneCommand::AddSender(node, channel)).commanded(
            DroneCommand::RemoveSender(node),
        ) == drone.commanded(DroneCommand::RemoveSender(node)),
        !drone.neighbours.contains_key(node) ==> drone.commanded(
            DroneCommand::AddSender(node, channel),
        ).commanded(DroneCommand::RemoveSender(node)) == drone,
{
    assert(drone.neighbours.insert(node, channel).remove(node) =~= drone.neighbours.remove(node));
    if !drone.neighbours.contains_key(node) {
        assert(drone.neighbours.remove(node) =~= drone.neighbours);
    }
}

/// A refusal starts at the hop where the packet stands, goes to the hop that
/// the packet came from, and ends at the source of the packet.
pub proof fn law_nack_goes_back(
    packet: PacketView,
    nack_type: NackType,
    fragment_index: Option<u64>,
)
    requires
        packet.routing_header.answerable(),
    ensures
        ({
            let route = packet.routing_header;
            let back = packet.nack(nack_type, fragment_index).routing_header;
            &&& back.hops.len() == route.hop_index + 1
            &&& back.hops.first() == route.hops[route.hop_index]
            &&& back.current_hop() == Some(route.hops[route.hop_index - 1])
            &&& back.hops.last() == route.hops.first()
        }),
{
}

/// A packet that stands at the drone, whose next hop is a neighbour, and that
/// is not dropped, goes to that neighbour. Nothing of it changes but the hop
/// where it stands.
pub proof fn law_forwarding<C>(drone: DroneView<C>, packet: PacketView, dropped: bool)
    requires
        packet.routing_header.routing_code(drone.id) == RoutingCodes::Correct,
        !(packet.pack_type is FloodRequest),
        packet.pack_type is MsgFragment ==> !dropped,
        drone.reaches_next_hop(packet),
    ensures
        ({
            let sent = packet.advanced();
            &&& drone.reactions(packet, dropped) == seq![
                ActionView::Transmit {
                    to: packet.routing_header.next_hop()->0,
                    packet: sent,
                    flooding: false,
                },
            ]
            &&& sent.routing_header.current_hop() == packet.routing_header.next_hop()
            &&& sent.routing_header.hops == packet.routing_header.hops
            &&& sent.session_id == packet.session_id
            &&& sent.pack_type == packet.pack_type
        }),
{
}

/// A packet that stands at the drone and whose next hop is no neighbour is
/// refused, with the name of that hop and the index of its fragment.
pub proof fn law_missing_next_hop<C>(drone: DroneView<C>, packet: PacketView, dropped: bool)
    requires
        packet.routing_header.routing_code(drone.id) == RoutingCodes::Correct,
        !(packet.pack_type is FloodRequest),
        packet.pack_type is MsgFragment ==> !dropped,
        !drone.reaches_next_hop(packet),
    ensures
        drone.reactions(packet, dropped) == seq![
            drone.dispatch(
                packet.nack(
                    NackType::ErrorInRouting(
                        packet.routing_header.hops[packet.routing_header.hop_index + 1],
                    ),
                    packet.fragment_index(),
                ),
            ),
        ],
{
}

/// Chance touches nothing but fragments that stand at a drone which is up: for
/// every other packet it makes no difference which lot was drawn.
pub proof fn law_chance_touches_only_fragments<C>(
    drone: DroneView<C>,
    packet: PacketView,
    after: DroneView<C>,
    actions: Seq<ActionView>,
)
    requires
        !drone.may_drop(packet),
    ensures
        drone.behaved(Some(packet), true, after, actions) == drone.behaved(
            Some(packet),
            false,
            after,
            actions,
        ),
        drone.accepts(packet, true) == drone.accepts(packet, false),
{
}

/// A fragment that is dropped goes nowhere: the controller is told that it was
/// dropped, and its sender gets a refusal with its index.
pub proof fn law_dropped_fragment<C>(drone: DroneView<C>, packet: PacketView)
    requires
        drone.may_drop(packet),
    ensures
        drone.reactions(packet, true) == seq![
            ActionView::Report(DroneEventView::PacketDropped(packet)),
            drone.dispatch(
                packet.nack(
                    NackType::Dropped,
                    Some(packet.pack_type->MsgFragment_0.fragment_index),
                ),
            ),
        ],
{
}

/// A drone that is up does about a packet what its route and its contents ask
/// for, and nothing stands before that.
pub proof fn law_drone_that_is_up_handles<C>(
    drone: DroneView<C>,
    packet: PacketView,
    dropped: bool,
    after: DroneView<C>,
    actions: Seq<ActionView>,
)
    requires
        !drone.crashed,
    ensures
        drone.accepts(packet, dropped) == drone.handles(packet, dropped),
        drone.behaved(Some(packet), dropped, after, actions) == drone.handled(
            packet,
            dropped,
            after,
            actions,
        ),
{
}

/// Acknowledgements, refusals and flood responses pass a crashed drone as they
/// pass one that is up: it handles them the same, with the same actions and
/// the same state after, the crash aside, and one whose next hop is a
/// neighbour goes there.
pub proof fn law_crashed_drone_passes_replies<C>(
    drone: DroneView<C>,
    packet: PacketView,
    dropped: bool,
    after: DroneView<C>,
    actions: Seq<ActionView>,
)
    requires
        drone.crashed,
        packet.pack_type is Ack || packet.pack_type is Nack || packet.pack_type is FloodResponse,
    ensures
        ({
            let up = DroneView { crashed: false, ..drone };
            &&& drone.accepts(packet, dropped) == drone.handles(packet, dropped)
            &&& drone.accepts(packet, dropped) == up.accepts(packet, dropped)
            &&& drone.behaved(Some(packet), dropped, after, actions) == drone.handled(
                packet,
                dropped,
                after,
                actions,
            )
            &&& drone.behaved(Some(packet), dropped, after, actions) == (after.crashed
                && up.behaved(
                Some(packet),
                dropped,
                DroneView { crashed: false, ..after },
                actions,
            ))
        }),
        ({
            &&& packet.routing_header.routing_code(drone.id) == RoutingCodes::Correct
            &&& drone.reaches_next_hop(packet)
            &&& drone.behaved(Some(packet), dropped, after, actions)
        }) ==> actions == seq![
            ActionView::Transmit {
                to: packet.routing_header.next_hop()->0,
                packet: packet.advanced(),
                flooding: false,
            },
        ],
{
    let up = DroneView { crashed: false, ..drone };
    assert(up.reactions(packet, dropped) =~= drone.reactions(packet, dropped));
}

/// A crashed drone passes on no fragment and no flood: it tells the controller
/// that it dropped the packet, refuses the packet in its own name, and takes
/// note of no flood.
pub proof fn law_crashed_drone_refuses<C>(
    drone: DroneView<C>,
    packet: PacketView,
    dropped: bool,
    after: DroneView<C>,
    actions: Seq<ActionView>,
)
    requires
        drone.crashed,
        packet.pack_type is MsgFragment || packet.pack_type is FloodRequest,
        drone.behaved(Some(packet), dropped, after, actions),
    ensures
        after == drone,
        actions.len() == 2,
        actions[0] == ActionView::Report(DroneEventView::PacketDropped(packet)),
        subject(actions[1]) == packet.nack(
            NackType::ErrorInRouting(drone.id),
            packet.fragment_index(),
        ),
{
}

/// A flood request that does not stand at the drone with hops to go, its route
/// empty or out of range among them, is handled as a flood, whatever its route
/// holds. No refusal is made of it.
pub proof fn law_flood_request_off_its_route<C>(
    drone: DroneView<C>,
    packet: PacketView,
    dropped: bool,
    after: DroneView<C>,
    actions: Seq<ActionView>,
)
    requires
        packet.pack_type is FloodRequest,
        packet.routing_header.hop_index >= 0,
        packet.routing_header.hop_index + 1 >= packet.routing_header.hops.len()
            || packet.routing_header.hops[packet.routing_header.hop_index] != drone.id,
    ensures
        drone.handled(packet, dropped, after, actions) == drone.flooded(
            packet.pack_type->FloodRequest_0,
            packet,
            after,
            actions,
        ),
        drone.handles(packet, dropped) == (packet.pack_type->FloodRequest_0.path_trace.len() > 0),
        drone.handled(packet, dropped, after, actions) ==> forall|i: int|
            0 <= i < actions.len() ==> !(subject(#[trigger] actions[i]).pack_type is Nack),
{
    let request = packet.pack_type->FloodRequest_0;
    if drone.handled(packet, dropped, after, actions) && !drone.seen.contains(request.key()) {
        lemma_new_flood(drone, request, packet, after, actions);
    }
}

/// A flood that the drone has seen stays seen, whatever arrives and whatever
/// the controller commands, and the drone stays who it is.
pub proof fn law_seen_flood_stays_seen<C>(
    drone: DroneView<C>,
    after: DroneView<C>,
    flood: (NodeId, u64),
)
    requires
        drone.seen.contains(flood),
        drone.steps_to(after),
    ensures
        after.seen.contains(flood),
        after.id == drone.id,
{
}

/// As [`law_seen_flood_stays_seen`], over any number of calls.
pub proof fn law_seen_flood_stays_seen_over_a_run<C>(
    states: Seq<DroneView<C>>,
    flood: (NodeId, u64),
)
    requires
        is_run(states),
        states.first().seen.contains(flood),
    ensures
        states.last().seen.contains(flood),
        states.last().id == states.first().id,
    decreases states.len(),
{
    if states.len() > 1 {
        let earlier = states.drop_last();
        assert forall|i: int, j: int|
            0 <= i < j < earlier.len() && j == i + 1 implies #[trigger] earlier[i].steps_to(
            earlier[j],
        ) by {
            assert(states[i].steps_to(states[j]));
        }
        law_seen_flood_stays_seen_over_a_run(earlier, flood);
        assert(states[states.len() - 2].steps_to(states[states.len() - 1]));
        law_seen_flood_stays_seen(earlier.last(), states.last(), flood);
    }
}

/// A flood that was handled once is only answered from then on, whatever the
/// drone goes through in between and whatever way the flood comes back, and
/// changes nothing more.
pub proof fn law_flood_is_handled_once<C>(
    drone: DroneView<C>,
    first: FloodRequestView,
    first_packet: PacketView,
    first_actions: Seq<ActionView>,
    between: Seq<DroneView<C>>,
    second: FloodRequestView,
    second_packet: PacketView,
    after: DroneView<C>,
    second_actions: Seq<ActionView>,
)
    requires
        is_run(between),
        drone.flooded(first, first_packet, between.first(), first_actions),
        second.key() == first.key(),
        between.last().flooded(second, second_packet, after, second_actions),
    ensures
        between.first().seen == drone.seen.insert(first.key()),
        after == between.last(),
        second_actions == seq![
            between.last().dispatch(
                second.passed(drone.id).response(second_packet.session_id),
            ),
        ],
{
    if drone.seen.contains(first.key()) {
        assert(drone.seen.insert(first.key()) =~= drone.seen);
    }
    law_seen_flood_stays_seen_over_a_run(between, first.key());
}

/// A new flood goes to every neighbour but its sender, to each of them once,
/// and to nobody else, with this drone at the end of its trace.
pub proof fn law_flood_reaches_all_but_sender<C>(
    drone: DroneView<C>,
    request: FloodRequestView,
    packet: PacketView,
    after: DroneView<C>,
    actions: Seq<ActionView>,
)
    requires
        !drone.seen.contains(request.key()),
        drone.flooded(request, packet, after, actions),
    ensures
        ({
            let flood = packet.carrying(request.passed(drone.id));
            &&& actions.no_duplicates()
            &&& forall|i: int|
                0 <= i < actions.len() ==> (#[trigger] actions[i]) == (ActionView::Transmit {
                    to: actions[i]->to,
                    packet: flood,
                    flooding: true,
                })
            &&& forall|node: NodeId|
                #![trigger drone.neighbours.contains_key(node)]
                (drone.neighbours.contains_key(node) && node != request.sender())
                    == actions.contains(
                    ActionView::Transmit { to: node, packet: flood, flooding: true },
                )
        }),
{
    let flood = packet.carrying(request.passed(drone.id));
    let targets = drone.flood_targets(request);
    lemma_new_flood(drone, request, packet, after, actions);
    assert forall|node: NodeId| #![trigger drone.neighbours.contains_key(node)]
        (drone.neighbours.contains_key(node) && node != request.sender()) == actions.contains(
            ActionView::Transmit { to: node, packet: flood, flooding: true },
        ) by {
        assert(targets.contains(node) == (drone.neighbours.contains_key(node) && node
            != request.sender()));
    }
}

/// What a new flood has the drone do, action by action.
proof fn lemma_new_flood<C>(
    drone: DroneView<C>,
    request: FloodRequestView,
    carrier: PacketView,
    after: DroneView<C>,
    actions: Seq<ActionView>,
)
    requires
        !drone.seen.contains(request.key()),
        drone.flooded(request, carrier, after, actions),
    ensures
        ({
            let packet = carrier.carrying(request.passed(drone.id));
            let targets = drone.flood_targets(request);
            &&& actions.no_duplicates()
            &&& forall|i: int|
                0 <= i < actions.len() ==> (#[trigger] actions[i]) == (ActionView::Transmit {
                    to: actions[i]->to,
                    packet,
                    flooding: true,
                }) && targets.contains(actions[i]->to)
            &&& forall|node: NodeId| #[trigger]
                targets.contains(node) == actions.contains(
                    ActionView::Transmit { to: node, packet, flooding: true },
                )
        }),
{
    let packet = carrier.carrying(request.passed(drone.id));
    let targets = drone.flood_targets(request);
    let order = choose|order: Seq<NodeId>| #[trigger]
        lists(order, targets) && actions == flood_to(order, packet);
    assert forall|i: int| 0 <= i < actions.len() implies (#[trigger] actions[i]) == (
    ActionView::Transmit { to: actions[i]->to, packet, flooding: true }) && targets.contains(
        actions[i]->to,
    ) by {
        assert(order.to_set().contains(order[i]));
    }
    assert forall|node: NodeId| #[trigger] targets.contains(node) == actions.contains(
        ActionView::Transmit { to: node, packet, flooding: true },
    ) by {
        if targets.contains(node) {
            assert(order.to_set().contains(node));
            assert(actions[order.index_of(node)] == (ActionView::Transmit {
                to: node,
                packet,
                flooding: true,
            }));
        }
    }
}

/// The answer to a flood starts at the drone, goes to the node that the
/// request came from, and ends at the first node of the trace. It carries the
/// whole trace.
pub proof fn law_flood_response_goes_back(
    request: FloodRequestView,
    id: NodeId,
    session_id: u64,
)
    requires
        request.path_trace.len() > 0,
    ensures
        ({
            let response = request.passed(id).response(session_id);
            let back = response.routing_header;
            &&& back.hops.len() == request.path_trace.len() + 1
            &&& back.hops.first() == id
            &&& back.current_hop() == Some(request.sender())
            &&& back.hops.last() == request.path_trace.first().0
            &&& response.pack_type->FloodResponse_0.path_trace == request.path_trace.push(
                (id, NodeType::Drone),
            )
        }),
{
}

/// No packet changes who the drone is, its neighbours, its drop rate or
/// whether it is crashed; and it forgets no flood, nor notes one but that of
/// the packet.
pub proof fn law_packets_keep_the_drone<C>(
    drone: DroneView<C>,
    packet: PacketView,
    dropped: bool,
    after: DroneView<C>,
    actions: Seq<ActionView>,
)
    requires
        drone.behaved(Some(packet), dropped, after, actions),
    ensures
        after == (DroneView { seen: after.seen, ..drone }),
        after.seen == drone.seen || after.seen == drone.seen.insert(
            packet.pack_type->FloodRequest_0.key(),
        ),
        !(packet.pack_type is FloodRequest) ==> after == drone,
{
}

/// Whatever goes out goes to a neighbour, and a packet that follows its route
/// goes to the hop of the route where it then stands, so that the receiver
/// finds it well routed.
pub proof fn law_sends_go_to_neighbours<C>(
    drone: DroneView<C>,
    packet: PacketView,
    dropped: bool,
    after: DroneView<C>,
    actions: Seq<ActionView>,
    i: int,
)
    requires
        drone.accepts(packet, dropped),
        drone.behaved(Some(packet), dropped, after, actions),
        0 <= i < actions.len(),
        actions[i] is Transmit,
    ensures
        drone.neighbours.contains_key(actions[i]->to),
        !actions[i]->flooding ==> subject(actions[i]).routing_header.current_hop() == Some(
            actions[i]->to,
        ),
        !actions[i]->flooding ==> subject(actions[i]).routing_header.routing_code(actions[i]->to)
            != RoutingCodes::HopsMismatch,
{
    if !drone.refuses(packet) && drone.joins_flood(packet) {
        let request = packet.pack_type->FloodRequest_0;
        if !drone.seen.contains(request.key()) {
            lemma_new_flood(drone, request, packet, after, actions);
        }
    }
}

/// All that goes out for a packet, and all that the controller hears of it,
/// belongs to the session of the packet.
pub proof fn law_session_is_kept<C>(
    drone: DroneView<C>,
    packet: PacketView,
    dropped: bool,
    after: DroneView<C>,
    actions: Seq<ActionView>,
    i: int,
)
    requires
        drone.behaved(Some(packet), dropped, after, actions),
        0 <= i < actions.len(),
    ensures
        subject(actions[i]).session_id == packet.session_id,
{
    if !drone.refuses(packet) && drone.joins_flood(packet) {
        let request = packet.pack_type->FloodRequest_0;
        if !drone.seen.contains(request.key()) {
            lemma_new_flood(drone, request, packet, after, actions);
        }
    }
}

/// No packet vanishes, flood requests aside: it goes on along its route to a
/// neighbour, or a refusal of it is made.
pub proof fn law_forwarded_or_refused<C>(
    drone: DroneView<C>,
    packet: PacketView,
    dropped: bool,
    after: DroneView<C>,
    actions: Seq<ActionView>,
)
    requires
        !(packet.pack_type is FloodRequest),
        drone.behaved(Some(packet), dropped, after, actions),
    ensures
        actions.len() > 0,
        ({
            let last = subject(actions.last());
            ||| last == packet.advanced() && drone.reaches_next_hop(packet)
            ||| exists|nack_type: NackType, index: Option<u64>| #[trigger]
                packet.nack(nack_type, index) == last
        }),
{
}

/// The controller hears of every packet that is sent or dropped: once an
/// action is done, it is told of the packet that the action is about. What a
/// crashed drone drops is reported before anything else.
pub proof fn law_controller_hears<C>(
    drone: DroneView<C>,
    packet: PacketView,
    dropped: bool,
    after: DroneView<C>,
    actions: Seq<ActionView>,
    i: int,
    accepted: bool,
)
    requires
        drone.behaved(Some(packet), dropped, after, actions),
        0 <= i < actions.len(),
    ensures
        reported(heard(actions[i], accepted)) == subject(actions[i]),
        actions[i] is Transmit && accepted ==> heard(actions[i], accepted)
            == DroneEventView::PacketSent(subject(actions[i])),
        drone.refuses(packet) || drone.may_drop(packet) && dropped ==> actions[0]
            == ActionView::Report(DroneEventView::PacketDropped(packet)),
{
}

} // verus!

//! What holds of the packets, events and codes that a drone makes, said of
//! their fields alone.
use vstd::prelude::*;

use crate::action::{views, Action, ActionView};
use crate::codes::{decimal, digit, SendingCodes, SendingCodesView};
use crate::controller::{DroneEvent, DroneEventView};
use crate::model::{event_of, told};
use crate::packet::{
    FloodRequest, FloodRequestView, FloodResponse, NackType, NodeId, NodeType, Packet, PacketType,
    PacketTypeView, PacketView,
};

verus! {

/// A refusal belongs to the session of its packet and carries just the reason
/// given and the index given, or zero where none is, whatever the route.
pub proof fn law_nack_carries_reason_and_index(
    packet: PacketView,
    nack_type: NackType,
    fragment_index: Option<u64>,
)
    ensures
        ({
            let nack = packet.nack(nack_type, fragment_index);
            &&& nack.session_id == packet.session_id
            &&& nack.pack_type is Nack
            &&& nack.pack_type->Nack_0.nack_type == nack_type
            &&& fragment_index is Some ==> nack.pack_type->Nack_0.fragment_index
                == fragment_index->0
            &&& fragment_index is None ==> nack.pack_type->Nack_0.fragment_index == 0
        }),
{
}

/// A refusal goes back over every hop that its packet passed, in turn.
pub proof fn law_nack_retraces_every_hop(
    packet: PacketView,
    nack_type: NackType,
    fragment_index: Option<u64>,
)
    requires
        0 <= packet.routing_header.hop_index < packet.routing_header.hops.len(),
    ensures
        ({
            let route = packet.routing_header;
            let back = packet.nack(nack_type, fragment_index).routing_header;
            &&& back.hop_index == 1
            &&& back.hops.len() == route.hop_index + 1
            &&& forall|k: int|
                0 <= k <= route.hop_index ==> #[trigger] back.hops[k]
                    == route.hops[route.hop_index - k]
        }),
{
}

/// Fragments, and they alone, have an index: the one that they carry.
pub proof fn law_fragment_index(packet: PacketView)
    ensures
        packet.pack_type is MsgFragment ==> packet.fragment_index() == Some(
            packet.pack_type->MsgFragment_0.fragment_index,
        ),
        !(packet.pack_type is MsgFragment) ==> packet.fragment_index() is None,
{
}

/// A packet that goes one hop further, or that carries another request, keeps
/// all else.
pub proof fn law_packet_keeps_the_rest(packet: PacketView, request: FloodRequestView)
    ensures
        packet.advanced().session_id == packet.session_id,
        packet.advanced().pack_type == packet.pack_type,
        packet.advanced().routing_header.hops == packet.routing_header.hops,
        packet.advanced().routing_header.hop_index == packet.routing_header.hop_index + 1,
        packet.carrying(request).session_id == packet.session_id,
        packet.carrying(request).routing_header == packet.routing_header,
        packet.carrying(request).pack_type is FloodRequest,
        packet.carrying(request).pack_type->FloodRequest_0 == request,
{
}

/// A request that passes a drone keeps its flood, its initiator and its trace,
/// and has the drone at the end of the trace.
pub proof fn law_passing_extends_the_trace(request: FloodRequestView, id: NodeId)
    ensures
        request.passed(id).flood_id == request.flood_id,
        request.passed(id).initiator_id == request.initiator_id,
        request.passed(id).path_trace.len() == request.path_trace.len() + 1,
        forall|i: int|
            0 <= i < request.path_trace.len() ==> #[trigger] request.passed(id).path_trace[i]
                == request.path_trace[i],
        request.passed(id).path_trace[request.path_trace.len() as int].0 == id,
        request.passed(id).path_trace[request.path_trace.len() as int].1 == NodeType::Drone,
{
}

/// The answer to a request goes back over every node of the trace, in turn,
/// and carries the flood and the whole trace, in the session given.
pub proof fn law_response_retraces_every_node(request: FloodRequestView, session_id: u64)
    ensures
        ({
            let response = request.response(session_id);
            let back = response.routing_header;
            &&& response.session_id == session_id
            &&& back.hop_index == 1
            &&& back.hops.len() == request.path_trace.len()
            &&& forall|i: int|
                0 <= i < request.path_trace.len() ==> #[trigger] back.hops[i]
                    == request.path_trace[request.path_trace.len() - 1 - i].0
            &&& response.pack_type is FloodResponse
            &&& response.pack_type->FloodResponse_0.flood_id == request.flood_id
            &&& response.pack_type->FloodResponse_0.path_trace == request.path_trace
        }),
{
}

/// Two requests are of one flood if and only if both the initiator and the
/// number of the flood agree.
pub proof fn law_floods_are_told_apart(one: FloodRequestView, other: FloodRequestView)
    ensures
        one.key() == other.key() <==> one.initiator_id == other.initiator_id && one.flood_id
            == other.flood_id,
        one.key().0 == one.initiator_id,
        one.key().1 == one.flood_id,
{
}

/// A request comes from the last node of its trace.
pub proof fn law_sender_ends_the_trace(request: FloodRequestView)
    requires
        request.path_trace.len() > 0,
    ensures
        request.sender() == request.path_trace[request.path_trace.len() - 1].0,
{
}

/// What the controller is told: a packet that was sent, or that followed its
/// route, as sent; one that was dropped, or a flood's that was refused, as
/// dropped. It is the packet itself that it hears of.
pub proof fn law_events(packet: PacketView)
    ensures
        event_of(packet, true) == DroneEventView::PacketSent(packet),
        event_of(packet, false) == DroneEventView::PacketDropped(packet),
        told(packet, false, true) == DroneEventView::PacketSent(packet),
        told(packet, false, false) == DroneEventView::PacketSent(packet),
        told(packet, true, true) == DroneEventView::PacketSent(packet),
        told(packet, true, false) == DroneEventView::PacketDropped(packet),
{
}

/// The number that a row of decimal digits stands for.
pub open spec fn value(digits: Seq<char>) -> int
    decreases digits.len(),
{
    if digits.len() == 0 {
        0
    } else {
        value(digits.drop_last()) * 10 + (digits.last() as int - '0' as int)
    }
}

/// `digits` is `n` in decimal: a row of digits that stands for `n`, and starts
/// with a zero only where it is that zero alone.
pub open spec fn writes(digits: Seq<char>, n: int) -> bool {
    &&& digits.len() > 0
    &&& value(digits) == n
    &&& forall|i: int|
        0 <= i < digits.len() ==> '0' as int <= (#[trigger] digits[i]) as int <= '9' as int
    &&& digits.len() > 1 ==> digits[0] != '0'
}

/// A number is written out in decimal.
pub proof fn law_decimal(n: nat)
    ensures
        writes(decimal(n), n as int),
    decreases n,
{
    reveal_with_fuel(value, 2);
    if n < 10 {
        assert(seq![digit(n as int)].drop_last() =~= Seq::<char>::empty());
    } else {
        law_decimal(n / 10);
        assert(decimal(n).drop_last() =~= decimal(n / 10));
        if decimal(n / 10).len() == 1 {
            assert(decimal(n / 10).drop_last() =~= Seq::<char>::empty());
        }
    }
}

/// The words for a code: what happened, and to which session or why.
pub proof fn law_code_texts(session: u64, reason: Seq<char>)
    ensures
        exists|digits: Seq<char>| #[trigger]
            writes(digits, session as int) && SendingCodesView::SuccessfullySent(session).text()
                == "Successfully sent [Packet "@ + digits + "]"@,
        SendingCodesView::ErrorSending(reason).text() == "Error sending the packet ["@ + reason
            + "]"@,
        SendingCodesView::NoNextHop(reason).text() == "No next hop available ["@ + reason + "]"@,
{
    law_decimal(session as nat);
}

/// The model of a packet holds what the packet holds.
pub proof fn law_packet_view(packet: Packet)
    ensures
        packet@.session_id == packet.session_id,
        packet@.routing_header.hop_index == packet.routing_header.hop_index,
        packet@.routing_header.hops == packet.routing_header.hops@,
        packet.pack_type matches PacketType::MsgFragment(fragment) ==> packet@.pack_type
            == PacketTypeView::MsgFragment(fragment),
        packet.pack_type matches PacketType::Ack(ack) ==> packet@.pack_type
            == PacketTypeView::Ack(ack),
        packet.pack_type matches PacketType::Nack(nack) ==> packet@.pack_type
            == PacketTypeView::Nack(nack),
        packet.pack_type matches PacketType::FloodRequest(request) ==> packet@.pack_type
            == PacketTypeView::FloodRequest(request@),
        packet.pack_type matches PacketType::FloodResponse(response) ==> packet@.pack_type
            == PacketTypeView::FloodResponse(response@),
{
}

/// The models of a flood request and of a flood response hold what these hold.
pub proof fn law_flood_views(request: FloodRequest, response: FloodResponse)
    ensures
        request@.flood_id == request.flood_id,
        request@.initiator_id == request.initiator_id,
        request@.path_trace == request.path_trace@,
        response@.flood_id == response.flood_id,
        response@.path_trace == response.path_trace@,
{
}

/// The models of events and codes hold what these hold.
pub proof fn law_event_and_code_views(event: DroneEvent, code: SendingCodes)
    ensures
        event matches DroneEvent::PacketSent(packet) ==> event@ == DroneEventView::PacketSent(
            packet@,
        ),
        event matches DroneEvent::PacketDropped(packet) ==> event@
            == DroneEventView::PacketDropped(packet@),
        code matches SendingCodes::SuccessfullySent(session) ==> code@
            == SendingCodesView::SuccessfullySent(session),
        code matches SendingCodes::ErrorSending(reason) ==> code@
            == SendingCodesView::ErrorSending(reason@),
        code matches SendingCodes::NoNextHop(reason) ==> code@ == SendingCodesView::NoNextHop(
            reason@,
        ),
{
}

/// The models of actions hold what the actions hold, one for one.
pub proof fn law_action_views(actions: Seq<Action>)
    ensures
        views(actions).len() == actions.len(),
        forall|i: int|
            0 <= i < actions.len() ==> match #[trigger] actions[i] {
                Action::Transmit { to, packet, flooding } => views(actions)[i]
                    == (ActionView::Transmit { to, packet: packet@, flooding }),
                Action::GiveUp { code, event } => views(actions)[i] == (ActionView::GiveUp {
                    code: code@,
                    event: event@,
                }),
                Action::Report(event) => views(actions)[i] == ActionView::Report(event@),
            },
{
}

} // verus!

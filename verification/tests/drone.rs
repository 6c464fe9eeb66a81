use std::collections::HashMap;

use ledron_james::action::Action;
use ledron_james::codes::{RoutingCodes, SendingCodes};
use ledron_james::controller::{CommandOutcome, DroneCommand, DroneEvent};
use ledron_james::drone::Drone;
use ledron_james::packet::{
    Ack, FloodRequest, FloodResponse, Fragment, Nack, NackType, NodeId, NodeType, Packet,
    PacketType, SourceRoutingHeader,
};

const SESSION: u64 = 42;

fn drone_with(neighbours: &[NodeId]) -> Drone<u32> {
    let mut packet_send: HashMap<NodeId, u32> = HashMap::new();
    for node in neighbours {
        packet_send.insert(*node, 1000 + u32::from(*node));
    }
    Drone::new(7, packet_send, 0.05f32.to_bits())
}

fn route(hops: &[NodeId], hop_index: usize) -> SourceRoutingHeader {
    SourceRoutingHeader { hop_index, hops: hops.to_vec() }
}

fn packet(hops: &[NodeId], hop_index: usize, pack_type: PacketType) -> Packet {
    Packet { routing_header: route(hops, hop_index), session_id: SESSION, pack_type }
}

fn fragment(index: u64) -> PacketType {
    PacketType::MsgFragment(Fragment {
        fragment_index: index,
        total_n_fragments: 9,
        length: 3,
        data: [5; 128],
    })
}

fn ack() -> PacketType {
    PacketType::Ack(Ack { fragment_index: 1 })
}

fn flood(trace: &[(NodeId, NodeType)]) -> FloodRequest {
    FloodRequest { flood_id: 77, initiator_id: 1, path_trace: trace.to_vec() }
}

fn flood_packet(trace: &[(NodeId, NodeType)]) -> Packet {
    packet(&[], 0, PacketType::FloodRequest(flood(trace)))
}

fn nack(hops: &[NodeId], fragment_index: u64, nack_type: NackType) -> Packet {
    packet(hops, 1, PacketType::Nack(Nack { fragment_index, nack_type }))
}

fn routed(to: NodeId, packet: Packet) -> Action {
    Action::Transmit { to, packet, flooding: false }
}

fn behave(drone: &mut Drone<u32>, packet: Packet, dropped: bool) -> Vec<Action> {
    assert!(drone.accepts(&packet, dropped));
    drone.drone_behaviour(Some(packet), dropped)
}

fn recipients(actions: &[Action]) -> Vec<NodeId> {
    let mut nodes: Vec<NodeId> = Vec::new();
    for action in actions {
        match action {
            Action::Transmit { to, flooding: true, .. } => nodes.push(*to),
            _ => panic!("no part of a flood"),
        }
    }
    nodes.sort();
    nodes
}

#[test]
fn a_new_drone_keeps_what_it_is_given() {
    let drone = drone_with(&[1, 2]);
    assert_eq!(drone.id, 7);
    assert_eq!(f32::from_bits(drone.pdr), 0.05);
    assert_eq!(drone.packet_send, HashMap::from([(1, 1001), (2, 1002)]));
}

#[test]
fn routing_codes_follow_the_route() {
    let drone = drone_with(&[]);
    assert_eq!(drone.handle_routing_header(&route(&[1, 7, 2], 1)), RoutingCodes::Correct);
    assert_eq!(drone.handle_routing_header(&route(&[7, 2], 0)), RoutingCodes::Correct);
    assert_eq!(drone.handle_routing_header(&route(&[1, 7], 1)), RoutingCodes::DestinationArrived);
    assert_eq!(drone.handle_routing_header(&route(&[1, 8], 1)), RoutingCodes::DestinationArrived);
    assert_eq!(drone.handle_routing_header(&route(&[1, 8, 2], 1)), RoutingCodes::HopsMismatch);
    assert_eq!(drone.handle_routing_header(&route(&[1, 7, 2], 3)), RoutingCodes::HopsMismatch);
    assert_eq!(drone.handle_routing_header(&route(&[], 0)), RoutingCodes::HopsMismatch);
    assert_eq!(drone.handle_routing_header(&route(&[7], usize::MAX)), RoutingCodes::HopsMismatch);
}

#[test]
fn a_route_knows_its_hops() {
    let middle = route(&[1, 7, 2], 1);
    assert_eq!(middle.current_hop(), Some(7));
    assert_eq!(middle.next_hop(), Some(2));
    assert!(middle.valid_hop_index());
    assert!(!middle.is_last_hop());
    let end = route(&[1, 7, 2], 2);
    assert_eq!(end.current_hop(), Some(2));
    assert_eq!(end.next_hop(), None);
    assert!(end.is_last_hop());
    let beyond = route(&[1, 7, 2], usize::MAX);
    assert_eq!(beyond.current_hop(), None);
    assert_eq!(beyond.next_hop(), None);
    assert!(!beyond.valid_hop_index());
    assert!(!beyond.is_last_hop());
    assert!(!route(&[], 0).is_last_hop());
}

#[test]
fn the_way_back_reverses_what_was_travelled() {
    assert_eq!(route(&[1, 4, 7, 2], 2).way_back(), route(&[7, 4, 1], 1));
    assert_eq!(route(&[1, 4], 0).way_back(), route(&[1], 1));
    assert_eq!(route(&[1, 4], 2).way_back(), route(&[4, 1], 1));
    assert_eq!(route(&[], 0).way_back(), route(&[], 1));
}

#[test]
fn packets_go_to_the_next_hop() {
    let contents = [
        fragment(3),
        ack(),
        PacketType::Nack(Nack { fragment_index: 2, nack_type: NackType::Dropped }),
        PacketType::FloodResponse(FloodResponse {
            flood_id: 8,
            path_trace: vec![(1, NodeType::Client), (2, NodeType::Server)],
        }),
    ];
    for content in contents {
        let mut drone = drone_with(&[1, 2]);
        let actions = behave(&mut drone, packet(&[1, 7, 2], 1, content.clone()), false);
        assert!(actions == vec![routed(2, packet(&[1, 7, 2], 2, content))]);
    }
}

#[test]
fn a_packet_at_its_first_hop_can_go_on() {
    let mut drone = drone_with(&[2]);
    let actions = behave(&mut drone, packet(&[7, 2], 0, ack()), false);
    assert!(actions == vec![routed(2, packet(&[7, 2], 1, ack()))]);
}

#[test]
fn a_missing_next_hop_is_an_error_in_routing() {
    let mut drone = drone_with(&[1]);
    let actions = behave(&mut drone, packet(&[1, 7, 2], 1, fragment(3)), false);
    assert!(actions == vec![routed(1, nack(&[7, 1], 3, NackType::ErrorInRouting(2)))]);
    let actions = behave(&mut drone, packet(&[1, 7, 2], 1, ack()), false);
    assert!(actions == vec![routed(1, nack(&[7, 1], 0, NackType::ErrorInRouting(2)))]);
}

#[test]
fn a_dropped_fragment_is_reported_and_refused() {
    let mut drone = drone_with(&[1, 2]);
    let actions = behave(&mut drone, packet(&[1, 7, 2], 1, fragment(3)), true);
    assert!(
        actions == vec![
            Action::Report(DroneEvent::PacketDropped(packet(&[1, 7, 2], 1, fragment(3)))),
            routed(1, nack(&[7, 1], 3, NackType::Dropped)),
        ]
    );
}

#[test]
fn only_fragments_at_the_drone_are_left_to_chance() {
    let mut drone = drone_with(&[1, 2]);
    assert!(drone.may_drop(&packet(&[1, 7, 2], 1, fragment(3))));
    assert!(!drone.may_drop(&packet(&[1, 8, 2], 1, fragment(3))));
    assert!(!drone.may_drop(&packet(&[1, 7], 1, fragment(3))));
    assert!(!drone.may_drop(&packet(&[1, 7, 2], 1, ack())));
    let actions = behave(&mut drone, packet(&[1, 7, 2], 1, ack()), true);
    assert!(actions == vec![routed(2, packet(&[1, 7, 2], 2, ack()))]);
    drone.handle_command(DroneCommand::Crash);
    assert!(!drone.may_drop(&packet(&[1, 7, 2], 1, fragment(3))));
}

#[test]
fn a_drone_is_no_destination() {
    let mut drone = drone_with(&[1]);
    let actions = behave(&mut drone, packet(&[1, 7], 1, fragment(3)), false);
    assert!(actions == vec![routed(1, nack(&[7, 1], 0, NackType::DestinationIsDrone))]);
}

#[test]
fn a_misrouted_packet_is_refused_in_the_name_of_its_hop() {
    let mut drone = drone_with(&[1]);
    let actions = behave(&mut drone, packet(&[1, 8, 2], 1, fragment(3)), false);
    assert!(actions == vec![routed(1, nack(&[8, 1], 3, NackType::ErrorInRouting(8)))]);
    let actions = behave(&mut drone, packet(&[1, 8, 2], 1, ack()), false);
    assert!(actions == vec![routed(1, nack(&[8, 1], 0, NackType::ErrorInRouting(8)))]);
}

#[test]
fn a_packet_off_its_route_is_for_the_controller() {
    let mut drone = drone_with(&[1]);
    let expected = nack(&[2, 7, 1], 0, NackType::UnexpectedRecipient(7));
    for content in [fragment(3), ack()] {
        let actions = behave(&mut drone, packet(&[1, 7, 2], 3, content), false);
        assert!(actions == vec![Action::Report(DroneEvent::PacketDropped(expected.clone()))]);
    }
}

#[test]
fn a_refusal_without_a_neighbour_is_given_up() {
    let mut drone = drone_with(&[]);
    let refusal = nack(&[7, 1], 0, NackType::DestinationIsDrone);
    let actions = behave(&mut drone, packet(&[1, 7], 1, ack()), false);
    assert!(
        actions == vec![Action::GiveUp {
            code: SendingCodes::NoNextHop("Neighbour not found".to_string()),
            event: DroneEvent::PacketSent(refusal),
        }]
    );
}

#[test]
fn packets_that_cannot_be_answered_are_not_accepted() {
    let mut drone = drone_with(&[2]);
    assert!(!drone.accepts(&packet(&[7], 0, ack()), false));
    assert!(!drone.accepts(&packet(&[8, 2], 0, ack()), false));
    assert!(!drone.accepts(&packet(&[7, 3], 0, ack()), false));
    assert!(drone.accepts(&packet(&[7, 2], 0, fragment(1)), false));
    assert!(!drone.accepts(&packet(&[7, 2], 0, fragment(1)), true));
    assert!(!drone.accepts(&flood_packet(&[]), false));
    assert!(drone.accepts(&flood_packet(&[(1, NodeType::Client)]), false));
    drone.handle_command(DroneCommand::Crash);
    assert!(!drone.accepts(&flood_packet(&[(1, NodeType::Client)]), false));
    assert!(!drone.accepts(&packet(&[7, 2], 0, fragment(1)), false));
    assert!(drone.accepts(&packet(&[7, 2], 0, ack()), false));
}

#[test]
fn a_new_flood_goes_to_all_but_its_sender() {
    let mut drone = drone_with(&[1, 2, 3, 4]);
    let actions = behave(&mut drone, flood_packet(&[(1, NodeType::Client), (3, NodeType::Drone)]), false);
    assert_eq!(recipients(&actions), vec![1, 2, 4]);
    let passed = flood_packet(&[
        (1, NodeType::Client),
        (3, NodeType::Drone),
        (7, NodeType::Drone),
    ]);
    for action in actions {
        match action {
            Action::Transmit { packet, .. } => assert_eq!(packet, passed),
            _ => panic!("no part of a flood"),
        }
    }
}

#[test]
fn a_flood_that_came_before_is_answered() {
    let mut drone = drone_with(&[1, 3]);
    behave(&mut drone, flood_packet(&[(1, NodeType::Client)]), false);
    let trace = [(1, NodeType::Client), (3, NodeType::Drone)];
    let actions = behave(&mut drone, flood_packet(&trace), false);
    let response = packet(
        &[7, 3, 1],
        1,
        PacketType::FloodResponse(FloodResponse {
            flood_id: 77,
            path_trace: vec![
                (1, NodeType::Client),
                (3, NodeType::Drone),
                (7, NodeType::Drone),
            ],
        }),
    );
    assert!(actions == vec![routed(3, response)]);
    let again = behave(&mut drone, flood_packet(&trace), false);
    assert!(actions == again);
}

#[test]
fn a_flood_stays_known_whatever_comes_between() {
    let mut drone = drone_with(&[1, 2, 3]);
    behave(&mut drone, flood_packet(&[(1, NodeType::Client)]), false);
    behave(&mut drone, packet(&[1, 7, 2], 1, fragment(3)), true);
    drone.handle_command(DroneCommand::RemoveSender(3));
    drone.handle_command(DroneCommand::Crash);
    behave(&mut drone, packet(&[1, 7, 2], 1, fragment(4)), false);
    drone.handle_command(DroneCommand::Crash);
    let mut other = flood(&[(2, NodeType::Drone)]);
    other.flood_id = 78;
    behave(&mut drone, packet(&[], 0, PacketType::FloodRequest(other)), false);
    let actions = behave(&mut drone, flood_packet(&[(2, NodeType::Drone)]), false);
    let response = FloodResponse {
        flood_id: 77,
        path_trace: vec![(2, NodeType::Drone), (7, NodeType::Drone)],
    };
    assert!(actions == vec![routed(2, packet(&[7, 2], 1, PacketType::FloodResponse(response)))]);
}

#[test]
fn floods_are_told_apart_by_initiator_and_id() {
    let mut drone = drone_with(&[1, 2]);
    let trace = [(1, NodeType::Client)];
    behave(&mut drone, flood_packet(&trace), false);
    let mut other_id = flood(&trace);
    other_id.flood_id = 78;
    let mut other_initiator = flood(&trace);
    other_initiator.initiator_id = 2;
    for request in [other_id, other_initiator] {
        let first = drone.handle_flooding_req(request.clone(), flood_packet(&trace));
        assert_eq!(recipients(&first), vec![2]);
        let second = drone.handle_flooding_req(request, flood_packet(&trace));
        assert!(matches!(second[0], Action::Transmit { to: 1, flooding: false, .. }));
    }
}

#[test]
fn a_flood_with_no_other_neighbour_ends() {
    let mut drone = drone_with(&[1]);
    let actions = behave(&mut drone, flood_packet(&[(1, NodeType::Client)]), false);
    assert!(actions.is_empty());
}

#[test]
fn a_flood_request_off_its_route_is_a_flood() {
    for (hops, hop_index) in [(vec![], 0), (vec![1, 8, 2], 1), (vec![1, 7], 1), (vec![1], 9)] {
        let request = flood(&[(1, NodeType::Client)]);
        let arrival = packet(&hops, hop_index, PacketType::FloodRequest(request.clone()));
        let mut first = drone_with(&[1, 2]);
        let mut second = drone_with(&[1, 2]);
        assert!(
            behave(&mut first, arrival.clone(), false)
                == second.handle_flooding_req(request, arrival)
        );
    }
}

#[test]
fn a_drone_that_is_up_handles_what_comes() {
    for content in [fragment(3), ack()] {
        let arrival = packet(&[1, 7, 2], 1, content);
        let mut first = drone_with(&[1, 2]);
        let mut second = drone_with(&[1, 2]);
        assert!(
            behave(&mut first, arrival.clone(), true) == second.handle_packet(arrival, true)
        );
    }
}

#[test]
fn a_flood_request_on_a_route_is_left_alone() {
    let mut drone = drone_with(&[1, 2]);
    let request = flood(&[(1, NodeType::Client)]);
    let actions =
        behave(&mut drone, packet(&[1, 7, 2], 1, PacketType::FloodRequest(request.clone())), false);
    assert!(actions.is_empty());
    let actions = behave(&mut drone, packet(&[1, 7], 1, PacketType::FloodRequest(request)), false);
    assert_eq!(recipients(&actions), vec![2]);
}

#[test]
fn a_failed_channel_brings_nothing() {
    let mut drone = drone_with(&[1]);
    assert!(drone.drone_behaviour(None, false).is_empty());
    drone.handle_command(DroneCommand::Crash);
    assert!(drone.drone_behaviour(None, false).is_empty());
}

#[test]
fn a_crashed_drone_refuses_fragments_and_floods() {
    let mut drone = drone_with(&[1, 2]);
    drone.handle_command(DroneCommand::Crash);
    let actions = behave(&mut drone, packet(&[1, 7, 2], 1, fragment(3)), false);
    assert!(
        actions == vec![
            Action::Report(DroneEvent::PacketDropped(packet(&[1, 7, 2], 1, fragment(3)))),
            routed(1, nack(&[7, 1], 3, NackType::ErrorInRouting(7))),
        ]
    );
    let request = packet(
        &[1, 7, 2],
        1,
        PacketType::FloodRequest(flood(&[(1, NodeType::Client)])),
    );
    let actions = behave(&mut drone, request.clone(), false);
    assert!(
        actions == vec![
            Action::Report(DroneEvent::PacketDropped(request)),
            routed(1, nack(&[7, 1], 0, NackType::ErrorInRouting(7))),
        ]
    );
    drone.handle_command(DroneCommand::Crash);
    let actions = behave(&mut drone, flood_packet(&[(1, NodeType::Client)]), false);
    assert_eq!(recipients(&actions), vec![2]);
}

#[test]
fn a_crashed_drone_passes_replies() {
    let mut drone = drone_with(&[1, 2]);
    drone.handle_command(DroneCommand::Crash);
    let actions = behave(&mut drone, packet(&[1, 7, 2], 1, ack()), false);
    assert!(actions == vec![routed(2, packet(&[1, 7, 2], 2, ack()))]);
}

#[test]
fn a_drone_recovers_and_remembers() {
    let mut drone = drone_with(&[1, 2]);
    behave(&mut drone, flood_packet(&[(1, NodeType::Client)]), false);
    assert_eq!(drone.handle_command(DroneCommand::Crash), CommandOutcome::Crashed);
    assert_eq!(drone.handle_command(DroneCommand::Crash), CommandOutcome::Recovered);
    let actions = behave(&mut drone, packet(&[1, 7, 2], 1, fragment(3)), false);
    assert!(actions == vec![routed(2, packet(&[1, 7, 2], 2, fragment(3)))]);
    let actions = behave(&mut drone, flood_packet(&[(2, NodeType::Drone)]), false);
    assert!(matches!(actions[0], Action::Transmit { to: 2, flooding: false, .. }));
}

#[test]
fn commands_change_the_neighbours_and_the_rate() {
    let mut drone = drone_with(&[1]);
    assert_eq!(drone.handle_command(DroneCommand::AddSender(2, 5)), CommandOutcome::SenderAdded);
    assert_eq!(drone.handle_command(DroneCommand::AddSender(2, 6)), CommandOutcome::SenderReplaced);
    assert_eq!(drone.packet_send, HashMap::from([(1, 1001), (2, 6)]));
    assert_eq!(drone.handle_command(DroneCommand::RemoveSender(2)), CommandOutcome::SenderRemoved);
    assert_eq!(drone.handle_command(DroneCommand::RemoveSender(9)), CommandOutcome::SenderUnknown);
    assert_eq!(drone.packet_send, HashMap::from([(1, 1001)]));
    let rate = DroneCommand::SetPacketDropRate(0.5f32.to_bits());
    assert_eq!(drone.handle_command(rate), CommandOutcome::RateSet);
    assert_eq!(f32::from_bits(drone.pdr), 0.5);
}

#[test]
fn the_controller_hears_how_a_send_ended() {
    let sent = packet(&[1, 7, 2], 2, ack());
    let (code, event) = Drone::<u32>::sent_packet(sent.clone(), false, Ok(()));
    assert!(code == SendingCodes::SuccessfullySent(SESSION));
    assert_eq!(event, DroneEvent::PacketSent(sent.clone()));
    let (code, event) = Drone::<u32>::sent_packet(sent.clone(), false, Err("gone".to_string()));
    assert!(code == SendingCodes::ErrorSending("gone".to_string()));
    assert_eq!(event, DroneEvent::PacketSent(sent.clone()));
    let (code, event) = Drone::<u32>::sent_packet(sent.clone(), true, Ok(()));
    assert!(code == SendingCodes::SuccessfullySent(SESSION));
    assert_eq!(event, DroneEvent::PacketSent(sent.clone()));
    let (code, event) = Drone::<u32>::sent_packet(sent.clone(), true, Err("gone".to_string()));
    assert!(code == SendingCodes::ErrorSending("gone".to_string()));
    assert_eq!(event, DroneEvent::PacketDropped(sent));
}

#[test]
fn events_name_what_was_sent_and_what_was_dropped() {
    let subject = packet(&[1, 7, 2], 1, ack());
    assert_eq!(
        Drone::<u32>::sendto_controller(subject.clone(), true),
        DroneEvent::PacketSent(subject.clone())
    );
    assert_eq!(
        Drone::<u32>::sendto_controller(subject.clone(), false),
        DroneEvent::PacketDropped(subject)
    );
}

#[test]
fn codes_speak_plainly() {
    assert_eq!(SendingCodes::SuccessfullySent(0).message(), "Successfully sent [Packet 0]");
    assert_eq!(SendingCodes::SuccessfullySent(1203).message(), "Successfully sent [Packet 1203]");
    assert_eq!(
        SendingCodes::SuccessfullySent(u64::MAX).message(),
        "Successfully sent [Packet 18446744073709551615]"
    );
    assert_eq!(
        SendingCodes::ErrorSending("sending on a disconnected channel".to_string()).message(),
        "Error sending the packet [sending on a disconnected channel]"
    );
    assert_eq!(
        SendingCodes::NoNextHop("Neighbour not found".to_string()).message(),
        "No next hop available [Neighbour not found]"
    );
}

#[test]
fn channels_carry_what_the_drone_decides() {
    let (to_client, client) = crossbeam_channel::unbounded::<Packet>();
    let (to_server, server) = crossbeam_channel::unbounded::<Packet>();
    let mut drone = Drone::new(7, HashMap::from([(1, to_client), (2, to_server)]), 0);
    drop(server);
    let arrival = packet(&[1, 7, 2], 1, fragment(3));
    for action in drone.drone_behaviour(Some(arrival), false) {
        match action {
            Action::Transmit { to, packet, flooding } => {
                let result = drone.packet_send[&to].send(packet.clone());
                let result = result.map_err(|error| error.to_string());
                let (code, _) =
                    Drone::<crossbeam_channel::Sender<Packet>>::sent_packet(packet, flooding, result);
                assert_eq!(
                    code.message(),
                    "Error sending the packet [sending on a disconnected channel]"
                );
            }
            _ => panic!("nothing is sent"),
        }
    }
    for action in drone.drone_behaviour(Some(packet(&[1, 7, 2], 1, fragment(4))), true) {
        if let Action::Transmit { to, packet, .. } = action {
            assert!(drone.packet_send[&to].send(packet).is_ok());
        }
    }
    assert_eq!(client.try_recv(), Ok(nack(&[7, 1], 4, NackType::Dropped)));
    assert!(client.try_recv().is_err());
}

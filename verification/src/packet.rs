//! The packets that travel between the nodes of the network, and their models.
use vstd::prelude::*;

verus! {

/// Identifies a node of the network.
pub type NodeId = u8;

/// How many bytes the payload of a fragment holds.
pub const FRAGMENT_DSIZE: usize = 128;

/// What a node of the network is.
#[derive(Clone, Copy, PartialEq, Eq, Structural, Debug)]
pub enum NodeType {
    Client,
    Drone,
    Server,
}

/// Why a packet was not handed on.
#[derive(Clone, Copy, PartialEq, Eq, Structural, Debug)]
pub enum NackType {
    /// The named node cannot be reached from where the packet stands.
    ErrorInRouting(NodeId),
    /// The route ends at a drone, which takes no messages.
    DestinationIsDrone,
    /// The drone lost the packet, as its drop rate has it do.
    Dropped,
    /// The named node got a packet that its route does not lead to.
    UnexpectedRecipient(NodeId),
}

/// One piece of a message.
#[derive(Clone, Copy, PartialEq, Eq, Debug)]
pub struct Fragment {
    pub fragment_index: u64,
    pub total_n_fragments: u64,
    pub length: u8,
    pub data: [u8; FRAGMENT_DSIZE],
}

/// Says that a fragment arrived.
#[derive(Clone, Copy, PartialEq, Eq, Structural, Debug)]
pub struct Ack {
    pub fragment_index: u64,
}

/// Says that a packet did not arrive, and why.
#[derive(Clone, Copy, PartialEq, Eq, Structural, Debug)]
pub struct Nack {
    pub fragment_index: u64,
    pub nack_type: NackType,
}

/// Asks every node it reaches to make itself known to the initiator.
#[derive(PartialEq, Eq, Debug)]
pub struct FloodRequest {
    pub flood_id: u64,
    pub initiator_id: NodeId,
    pub path_trace: Vec<(NodeId, NodeType)>,
}

/// Tells the initiator of a flood which way the flood went.
#[derive(PartialEq, Eq, Debug)]
pub struct FloodResponse {
    pub flood_id: u64,
    pub path_trace: Vec<(NodeId, NodeType)>,
}

/// The route of a packet and the hop of it where the packet stands.
#[derive(PartialEq, Eq, Debug)]
pub struct SourceRoutingHeader {
    pub hop_index: usize,
    pub hops: Vec<NodeId>,
}

/// What a packet carries.
#[derive(PartialEq, Eq, Debug)]
pub enum PacketType {
    MsgFragment(Fragment),
    Ack(Ack),
    Nack(Nack),
    FloodRequest(FloodRequest),
    FloodResponse(FloodResponse),
}

/// A packet on its way through the network.
#[derive(PartialEq, Eq, Debug)]
pub struct Packet {
    pub routing_header: SourceRoutingHeader,
    pub session_id: u64,
    pub pack_type: PacketType,
}

/// The nodes that a flood passed, in the order in which it passed them.
pub type Trace = Seq<(NodeId, NodeType)>;

/// The model of a [`FloodRequest`].
#[verifier::ext_equal]
pub struct FloodRequestView {
    pub flood_id: u64,
    pub initiator_id: NodeId,
    pub path_trace: Trace,
}

/// The model of a [`FloodResponse`].
#[verifier::ext_equal]
pub struct FloodResponseView {
    pub flood_id: u64,
    pub path_trace: Trace,
}

/// The model of a [`SourceRoutingHeader`].
#[verifier::ext_equal]
pub struct RouteView {
    pub hop_index: int,
    pub hops: Seq<NodeId>,
}

/// The model of a [`PacketType`].
#[verifier::ext_equal]
pub enum PacketTypeView {
    MsgFragment(Fragment),
    Ack(Ack),
    Nack(Nack),
    FloodRequest(FloodRequestView),
    FloodResponse(FloodResponseView),
}

/// The model of a [`Packet`].
#[verifier::ext_equal]
pub struct PacketView {
    pub routing_header: RouteView,
    pub session_id: u64,
    pub pack_type: PacketTypeView,
}

impl View for FloodRequest {
    type V = FloodRequestView;

    open spec fn view(&self) -> FloodRequestView {
        FloodRequestView {
            flood_id: self.flood_id,
            initiator_id: self.initiator_id,
            path_trace: self.path_trace@,
        }
    }
}

impl View for FloodResponse {
    type V = FloodResponseView;

    open spec fn view(&self) -> FloodResponseView {
        FloodResponseView { flood_id: self.flood_id, path_trace: self.path_trace@ }
    }
}

impl View for SourceRoutingHeader {
    type V = RouteView;

    open spec fn view(&self) -> RouteView {
        RouteView { hop_index: self.hop_index as int, hops: self.hops@ }
    }
}

impl View for PacketType {
    type V = PacketTypeView;

    open spec fn view(&self) -> PacketTypeView {
        match self {
            PacketType::MsgFragment(fragment) => PacketTypeView::MsgFragment(*fragment),
            PacketType::Ack(ack) => PacketTypeView::Ack(*ack),
            PacketType::Nack(nack) => PacketTypeView::Nack(*nack),
            PacketType::FloodRequest(request) => PacketTypeView::FloodRequest(request@),
            PacketType::FloodResponse(response) => PacketTypeView::FloodResponse(response@),
        }
    }
}

impl View for Packet {
    type V = PacketView;

    open spec fn view(&self) -> PacketView {
        PacketView {
            routing_header: self.routing_header@,
            session_id: self.session_id,
            pack_type: self.pack_type@,
        }
    }
}

/// Copies a trace, node by node.
fn copy_trace(trace: &Vec<(NodeId, NodeType)>) -> (copy: Vec<(NodeId, NodeType)>)
    ensures
        copy@ == trace@,
{
    let mut copy: Vec<(NodeId, NodeType)> = Vec::new();
    let mut i: usize = 0;
    while i < trace.len()
        invariant
            i <= trace.len(),
            copy@ == trace@.take(i as int),
        decreases trace.len() - i,
    {
        copy.push(trace[i]);
        i += 1;
    }
    copy
}

impl Clone for FloodRequest {
    fn clone(&self) -> (copy: Self)
        ensures
            copy@ == self@,
    {
        FloodRequest {
            flood_id: self.flood_id,
            initiator_id: self.initiator_id,
            path_trace: copy_trace(&self.path_trace),
        }
    }
}

impl Clone for FloodResponse {
    fn clone(&self) -> (copy: Self)
        ensures
            copy@ == self@,
    {
        FloodResponse { flood_id: self.flood_id, path_trace: copy_trace(&self.path_trace) }
    }
}

impl Clone for SourceRoutingHeader {
    fn clone(&self) -> (copy: Self)
        ensures
            copy@ == self@,
    {
        SourceRoutingHeader { hop_index: self.hop_index, hops: self.hops.clone() }
    }
}

impl Clone for PacketType {
    fn clone(&self) -> (copy: Self)
        ensures
            copy@ == self@,
    {
        match self {
            PacketType::MsgFragment(fragment) => PacketType::MsgFragment(*fragment),
            PacketType::Ack(ack) => PacketType::Ack(*ack),
            PacketType::Nack(nack) => PacketType::Nack(*nack),
            PacketType::FloodRequest(request) => PacketType::FloodRequest(request.clone()),
            PacketType::FloodResponse(response) => PacketType::FloodResponse(response.clone()),
        }
    }
}

impl Clone for Packet {
    fn clone(&self) -> (copy: Self)
        ensures
            copy@ == self@,
    {
        Packet {
            routing_header: self.routing_header.clone(),
            session_id: self.session_id,
            pack_type: self.pack_type.clone(),
        }
    }
}

} // verus!

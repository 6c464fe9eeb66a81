//! What holds of routes, said of their hops and their index alone.
use vstd::prelude::*;

use crate::codes::RoutingCodes;
use crate::packet::{NodeId, RouteView, SourceRoutingHeader};

verus! {

/// A packet has arrived just where it stands at the last of its hops; it is
/// rightly at `id` just where it stands at the hop `id` and has another hop to
/// go to; and it is astray in every other case.
pub proof fn law_routing_codes(route: RouteView, id: NodeId)
    requires
        route.hop_index >= 0,
    ensures
        route.routing_code(id) == RoutingCodes::DestinationArrived <==> route.hop_index
            == route.hops.len() - 1,
        route.routing_code(id) == RoutingCodes::Correct <==> route.hop_index + 1
            < route.hops.len() && route.hops[route.hop_index] == id,
        route.routing_code(id) == RoutingCodes::HopsMismatch <==> route.hop_index
            >= route.hops.len() || route.hop_index + 1 < route.hops.len()
            && route.hops[route.hop_index] != id,
{
}

/// What the hops of a route say of where a packet stands and goes.
pub proof fn law_hops(route: RouteView, hop: NodeId)
    requires
        route.hop_index >= 0,
    ensures
        route.valid_hop_index() <==> route.hop_index < route.hops.len(),
        route.is_last_hop() <==> route.hop_index + 1 == route.hops.len(),
        route.answerable() <==> 0 < route.hop_index < route.hops.len(),
        route.current_hop() == Some(hop) <==> route.hop_index < route.hops.len()
            && route.hops[route.hop_index] == hop,
        route.current_hop() is None <==> route.hop_index >= route.hops.len(),
        route.next_hop() == Some(hop) <==> route.hop_index + 1 < route.hops.len()
            && route.hops[route.hop_index + 1] == hop,
        route.next_hop() is None <==> route.hop_index + 1 >= route.hops.len(),
{
}

/// To go one hop further changes nothing of a route but where the packet
/// stands, and what was the next hop is the current one.
pub proof fn law_one_hop_further(route: RouteView)
    ensures
        route.advanced().hops == route.hops,
        route.advanced().hop_index - route.hop_index == 1,
        route.advanced().current_hop() == route.next_hop(),
{
}

/// The way back of a packet that stands at a hop holds every hop that it
/// passed, the last one first, and no other; its packet stands at the hop
/// after the first.
pub proof fn law_way_back(route: RouteView)
    requires
        0 <= route.hop_index < route.hops.len(),
    ensures
        route.way_back().hop_index == 1,
        route.way_back().hops.len() == route.hop_index + 1,
        forall|k: int|
            0 <= k <= route.hop_index ==> #[trigger] route.way_back().hops[k]
                == route.hops[route.hop_index - k],
{
}

/// The way back of a packet that stands behind the end of its route holds all
/// of its hops, the last one first.
pub proof fn law_way_back_from_nowhere(route: RouteView)
    requires
        route.hop_index >= route.hops.len(),
    ensures
        route.way_back().hop_index == 1,
        route.way_back().hops.len() == route.hops.len(),
        forall|k: int|
            0 <= k < route.hops.len() ==> #[trigger] route.way_back().hops[k]
                == route.hops[route.hops.len() - 1 - k],
{
}

/// The way back from the end of a way back is the way that the packet came.
pub proof fn law_way_back_and_forth(route: RouteView)
    requires
        0 <= route.hop_index < route.hops.len(),
    ensures
        (RouteView { hop_index: route.hop_index, ..route.way_back() }).way_back().hops
            == route.hops.subrange(0, route.hop_index + 1),
{
    let there = RouteView { hop_index: route.hop_index, ..route.way_back() };
    assert(there.way_back().hops =~= route.hops.subrange(0, route.hop_index + 1));
}

/// The model of a header holds the index and the hops of the header.
pub proof fn law_header_view(header: SourceRoutingHeader)
    ensures
        header@.hop_index == header.hop_index,
        header@.hops == header.hops@,
{
}

} // verus!

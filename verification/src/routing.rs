//! The route of a packet: where the packet stands on it, and the way back.
use vstd::prelude::*;

use crate::codes::RoutingCodes;
use crate::packet::{NodeId, RouteView, SourceRoutingHeader};

verus! {

impl RouteView {
    /// The packet stands at one of the hops.
    pub open spec fn valid_hop_index(self) -> bool {
        0 <= self.hop_index < self.hops.len()
    }

    /// The packet stands at the last hop.
    pub open spec fn is_last_hop(self) -> bool {
        self.hop_index == self.hops.len() - 1
    }

    /// The hop where the packet stands.
    pub open spec fn current_hop(self) -> Option<NodeId> {
        if self.valid_hop_index() {
            Some(self.hops[self.hop_index])
        } else {
            None
        }
    }

    /// The hop that the packet goes to next.
    pub open spec fn next_hop(self) -> Option<NodeId> {
        if 0 <= self.hop_index + 1 < self.hops.len() {
            Some(self.hops[self.hop_index + 1])
        } else {
            None
        }
    }

    /// The route with the packet one hop further.
    pub open spec fn advanced(self) -> RouteView {
        RouteView { hop_index: self.hop_index + 1, hops: self.hops }
    }

    /// The hops that the packet passed, the current one among them. An index
    /// behind the end of the route takes in the whole of it.
    pub open spec fn travelled(self) -> Seq<NodeId> {
        if self.valid_hop_index() {
            self.hops.take(self.hop_index + 1)
        } else {
            self.hops
        }
    }

    /// The route from the current hop back to the source, for a packet that
    /// sets out on it now.
    pub open spec fn way_back(self) -> RouteView {
        RouteView { hop_index: 1, hops: self.travelled().reverse() }
    }

    /// A packet that takes the way back has a hop to go to.
    pub open spec fn answerable(self) -> bool {
        1 <= self.hop_index < self.hops.len()
    }

    /// What the node `id` makes of a packet on this route.
    pub open spec fn routing_code(self, id: NodeId) -> RoutingCodes {
        if self.valid_hop_index() && self.is_last_hop() {
            RoutingCodes::DestinationArrived
        } else if self.current_hop() == Some(id) {
            RoutingCodes::Correct
        } else {
            RoutingCodes::HopsMismatch
        }
    }
}

impl SourceRoutingHeader {
    /// Whether the packet stands at one of the hops.
    pub fn valid_hop_index(&self) -> (valid: bool)
        ensures
            valid == self@.valid_hop_index(),
    {
        self.hop_index < self.hops.len()
    }

    /// Whether the packet stands at the last hop.
    pub fn is_last_hop(&self) -> (last: bool)
        ensures
            last == self@.is_last_hop(),
    {
        self.valid_hop_index() && self.hop_index == self.hops.len() - 1
    }

    /// The hop where the packet stands.
    pub fn current_hop(&self) -> (hop: Option<NodeId>)
        ensures
            hop == self@.current_hop(),
    {
        if self.valid_hop_index() {
            Some(self.hops[self.hop_index])
        } else {
            None
        }
    }

    /// The hop that the packet goes to next.
    pub fn next_hop(&self) -> (hop: Option<NodeId>)
        ensures
            hop == self@.next_hop(),
    {
        if self.hop_index < self.hops.len() && self.hop_index + 1 < self.hops.len() {
            Some(self.hops[self.hop_index + 1])
        } else {
            None
        }
    }

    /// The route from the current hop back to the source, with the index at
    /// the first hop after the current one.
    pub fn way_back(&self) -> (route: SourceRoutingHeader)
        ensures
            route@ == self@.way_back(),
    {
        let count: usize = if self.hop_index < self.hops.len() {
            self.hop_index + 1
        } else {
            self.hops.len()
        };
        let mut hops: Vec<NodeId> = Vec::new();
        let mut left: usize = count;
        while left > 0
            invariant
                left <= count <= self.hops.len(),
                hops@ == self.hops@.subrange(left as int, count as int).reverse(),
            decreases left,
        {
            left -= 1;
            hops.push(self.hops[left]);
        }
        proof {
            assert(self.hops@.subrange(0, count as int) == self@.travelled());
        }
        SourceRoutingHeader { hop_index: 1, hops }
    }
}

} // verus!

//! The filter predicate: a match condition (direction, required relationship
//! semantics, required peer object-type tag) evaluated against a relationship
//! incident to an implicit anchor node. `Outgoing` means the anchor is the
//! edge's source and the peer its target; `Incoming` is the mirror.

use vstd::prelude::*;

use crate::relationship::{Id, Relationship};
use crate::relationship_type::RelationshipType;
use crate::typed_object::TypedObject;

verus! {

/// Which endpoint of a relationship is the peer, relative to the anchor node.
#[derive(Debug, Clone, Copy, PartialEq, Eq, Structural)]
pub enum Direction {
    /// The anchor is the edge's source; the peer is its target.
    Outgoing,
    /// The anchor is the edge's target; the peer is its source.
    Incoming,
}

/// A match condition for relationship edges, constructed transiently per
/// query and discarded after use.
#[derive(Debug, Clone)]
pub struct Filter {
    /// Which endpoint of a tested relationship is the peer.
    pub direction: Direction,
    /// The semantics a tested relationship must carry.
    pub relationship_type: RelationshipType,
    /// The type-name tag the peer node must report.
    pub peer_type: String,
}

impl Filter {
    /// A filter for outgoing edges of the given semantics whose peer is of
    /// kind `Peer`.
    pub fn outgoing<Peer: TypedObject>(relationship_type: RelationshipType) -> (r: Filter)
        ensures
            r.direction == Direction::Outgoing,
            r.relationship_type == relationship_type,
            r.peer_type@ == Peer::spec_type_tag(),
    {
        Filter {
            direction: Direction::Outgoing,
            relationship_type,
            peer_type: Peer::type_tag(),
        }
    }

    /// A filter for incoming edges of the given semantics whose peer is of
    /// kind `Peer`.
    pub fn incoming<Peer: TypedObject>(relationship_type: RelationshipType) -> (r: Filter)
        ensures
            r.direction == Direction::Incoming,
            r.relationship_type == relationship_type,
            r.peer_type@ == Peer::spec_type_tag(),
    {
        Filter {
            direction: Direction::Incoming,
            relationship_type,
            peer_type: Peer::type_tag(),
        }
    }

    /// The peer endpoint of a relationship under this filter's direction:
    /// the target for `Outgoing`, the source for `Incoming`.
    pub open spec fn spec_peer(self, relationship: Relationship) -> Id {
        match self.direction {
            Direction::Outgoing => relationship.target_ref,
            Direction::Incoming => relationship.source_ref,
        }
    }

    /// Whether a relationship satisfies this filter: the peer endpoint's
    /// declared object-type tag equals `peer_type` exactly. The relationship's
    /// own semantics are deliberately not consulted here; see
    /// `spec_matches_strict`.
    pub open spec fn spec_matches(self, relationship: Relationship) -> bool {
        self.spec_peer(relationship).object_type@ == self.peer_type@
    }

    /// Whether a relationship satisfies this filter and carries the required
    /// semantics as well.
    pub open spec fn spec_matches_strict(self, relationship: Relationship) -> bool {
        &&& self.spec_matches(relationship)
        &&& relationship.relationship_type == self.relationship_type
    }

    /// Tests a relationship against this filter, comparing only the peer
    /// endpoint's declared object-type tag (case-sensitive, no
    /// normalization). This is the match condition as the surrounding
    /// traversal layer applies it: callers are expected to have selected the
    /// candidate edges by semantics already, so `relationship_type` is not
    /// consulted; `matches_strict` consults it too.
    pub fn matches(&self, relationship: &Relationship) -> (r: bool)
        ensures
            r == self.spec_matches(*relationship),
    {
        let peer = match self.direction {
            Direction::Outgoing => &relationship.target_ref,
            Direction::Incoming => &relationship.source_ref,
        };
        peer.object_type == self.peer_type
    }

    /// Tests a relationship against this filter, requiring both that the
    /// peer endpoint's declared object-type tag equals `peer_type` and that
    /// the relationship carries `relationship_type`.
    pub fn matches_strict(&self, relationship: &Relationship) -> (r: bool)
        ensures
            r == self.spec_matches_strict(*relationship),
    {
        self.matches(relationship) && relationship.relationship_type == self.relationship_type
    }
}

/// Law: the match result discriminates on the peer's declared type. When two
/// relationships present peers of different declared types to the same
/// filter, and the filter's `peer_type` is the tag of one of the two peers,
/// exactly one of them matches.
pub proof fn lemma_peer_type_discrimination(f: Filter, r1: Relationship, r2: Relationship)
    requires
        f.spec_peer(r1).object_type@ != f.spec_peer(r2).object_type@,
        f.peer_type@ == f.spec_peer(r1).object_type@ || f.peer_type@ == f.spec_peer(r2).object_type@,
    ensures
        f.spec_matches(r1) != f.spec_matches(r2),
{
}

} // verus!

//! The relationship entity: a directed edge (source id -> target id) between
//! two nodes of the graph, tagged by a `RelationshipType` and carrying the
//! generic metadata common to all typed objects. Immutable once constructed;
//! this module does not check that the referenced nodes exist.

use vstd::prelude::*;

use crate::relationship_type::RelationshipType;
use crate::typed_object::TypedObject;

verus! {

/// Generic metadata common to every typed object of the graph. Carried
/// through unread by this library; only the surrounding ingestion layer
/// gives its fields meaning.
#[derive(Debug, Clone)]
pub struct CommonProperties {
    /// The object's own identifier.
    pub id: String,
}

/// The identifier of a node, together with the type-name tag of the node it
/// refers to, as the surrounding registry resolved it. Whether the referenced
/// node actually exists is not this library's concern.
#[derive(Debug, Clone)]
pub struct Id {
    /// The identifier text itself.
    pub value: String,
    /// The type-name tag of the node the identifier refers to.
    pub object_type: String,
}

impl Id {
    /// The type-name tag of the node this identifier refers to.
    pub fn object_type(&self) -> (r: &String)
        ensures
            r == &self.object_type,
    {
        &self.object_type
    }
}

/// A directed, typed edge of the graph.
#[derive(Debug, Clone)]
pub struct Relationship {
    /// Generic metadata common to all typed objects in the graph.
    pub base: CommonProperties,
    /// Identifier of the edge's origin node.
    pub source_ref: Id,
    /// Identifier of the edge's destination node.
    pub target_ref: Id,
    /// The semantics this edge carries.
    pub relationship_type: RelationshipType,
}

impl Relationship {
    /// Assembles a relationship from already-deserialized parts.
    pub fn new(
        base: CommonProperties,
        source_ref: Id,
        target_ref: Id,
        relationship_type: RelationshipType,
    ) -> (r: Relationship)
        ensures
            r.base == base,
            r.source_ref == source_ref,
            r.target_ref == target_ref,
            r.relationship_type == relationship_type,
    {
        Relationship { base, source_ref, target_ref, relationship_type }
    }

    /// The embedded common-metadata view.
    pub fn base(&self) -> (r: &CommonProperties)
        ensures
            r == &self.base,
    {
        &self.base
    }
}

impl TypedObject for Relationship {
    open spec fn spec_type_tag() -> Seq<char> {
        "relationship"@
    }

    fn type_tag() -> (r: String) {
        "relationship".to_owned()
    }
}

} // verus!

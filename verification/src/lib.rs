//! Typed relationship edges between nodes of a threat-intelligence object
//! graph, and a direction-aware filter predicate for selecting the edges
//! incident to a node by direction, relationship semantics, and the declared
//! type of the peer node.

pub mod filter;
pub mod relationship;
pub mod relationship_type;
pub mod typed_object;

pub use filter::Direction;
pub use filter::Filter;
pub use relationship::CommonProperties;
pub use relationship::Id;
pub use relationship::Relationship;
pub use relationship_type::RelationshipType;
pub use relationship_type::UnknownRelationshipType;
pub use typed_object::TypedObject;

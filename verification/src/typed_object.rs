//! The "typed object" capability: every kind of object participating in the
//! graph reports a static type-name tag (for example `"malware"`). Filter
//! construction consumes this tag to know which peer type an edge must point
//! at, without needing the peer's full type information.

use vstd::prelude::*;

verus! {

/// A kind of object of the graph, able to report its own type-name tag.
pub trait TypedObject {
    /// The type-name tag as a mathematical sequence of characters.
    spec fn spec_type_tag() -> Seq<char>;

    /// The type-name tag of this kind of object.
    fn type_tag() -> (r: String)
        ensures
            r@ == Self::spec_type_tag(),
    ;
}

/// The malware node kind.
pub struct Malware;

impl TypedObject for Malware {
    open spec fn spec_type_tag() -> Seq<char> {
        "malware"@
    }

    fn type_tag() -> (r: String) {
        "malware".to_owned()
    }
}

/// The course-of-action node kind.
pub struct CourseOfAction;

impl TypedObject for CourseOfAction {
    open spec fn spec_type_tag() -> Seq<char> {
        "course-of-action"@
    }

    fn type_tag() -> (r: String) {
        "course-of-action".to_owned()
    }
}

} // verus!

//! The closed vocabulary of relationship semantics, with its canonical
//! lowercase-hyphenated textual form, used both for parsing incoming data and
//! for display. One shared mapping serves both directions, so the two can
//! never drift apart.

use vstd::prelude::*;

verus! {

/// The kinds of relationship an edge may carry.
#[derive(Debug, Clone, PartialEq, Eq, Hash, Structural)]
pub enum RelationshipType {
    Mitigates,
    Uses,
    RevokedBy,
    SubtechniqueOf,
}

/// Error returned when a textual relationship-type value matches no known
/// variant.
#[derive(Debug, Clone, PartialEq, Eq, Structural)]
pub struct UnknownRelationshipType;

impl RelationshipType {
    /// The canonical textual form of each variant: the variant name in
    /// lowercase, hyphen-separated words.
    pub open spec fn canonical(self) -> Seq<char> {
        match self {
            RelationshipType::Mitigates => "mitigates"@,
            RelationshipType::Uses => "uses"@,
            RelationshipType::RevokedBy => "revoked-by"@,
            RelationshipType::SubtechniqueOf => "subtechnique-of"@,
        }
    }

    /// What `parse` returns for a given text: the unique variant whose
    /// canonical form is the text, or an error when there is none.
    pub open spec fn parse_spec(text: Seq<char>) -> Result<RelationshipType, UnknownRelationshipType> {
        if text == RelationshipType::Mitigates.canonical() {
            Ok(RelationshipType::Mitigates)
        } else if text == RelationshipType::Uses.canonical() {
            Ok(RelationshipType::Uses)
        } else if text == RelationshipType::RevokedBy.canonical() {
            Ok(RelationshipType::RevokedBy)
        } else if text == RelationshipType::SubtechniqueOf.canonical() {
            Ok(RelationshipType::SubtechniqueOf)
        } else {
            Err(UnknownRelationshipType)
        }
    }

    /// Renders the canonical textual form. Total: succeeds for every variant.
    pub fn to_canonical_string(&self) -> (r: String)
        ensures
            r@ == self.canonical(),
    {
        match self {
            RelationshipType::Mitigates => "mitigates".to_owned(),
            RelationshipType::Uses => "uses".to_owned(),
            RelationshipType::RevokedBy => "revoked-by".to_owned(),
            RelationshipType::SubtechniqueOf => "subtechnique-of".to_owned(),
        }
    }

    /// Parses a canonical textual form, case-sensitively; any other text is
    /// rejected with `UnknownRelationshipType`.
    pub fn parse(text: &str) -> (r: Result<RelationshipType, UnknownRelationshipType>)
        ensures
            r == RelationshipType::parse_spec(text@),
    {
        if str_eq(text, "mitigates") {
            Ok(RelationshipType::Mitigates)
        } else if str_eq(text, "uses") {
            Ok(RelationshipType::Uses)
        } else if str_eq(text, "revoked-by") {
            Ok(RelationshipType::RevokedBy)
        } else if str_eq(text, "subtechnique-of") {
            Ok(RelationshipType::SubtechniqueOf)
        } else {
            Err(UnknownRelationshipType)
        }
    }
}

/// Law: parsing is the inverse of rendering. For every variant `v`,
/// `parse` accepts `v`'s canonical form and returns `v` itself.
pub proof fn lemma_parse_canonical_round_trip(v: RelationshipType)
    ensures
        RelationshipType::parse_spec(v.canonical()) == Ok::<RelationshipType, UnknownRelationshipType>(v),
{
    reveal_strlit("mitigates");
    reveal_strlit("uses");
    reveal_strlit("revoked-by");
    reveal_strlit("subtechnique-of");
    // The four canonical forms have pairwise distinct lengths, so none can
    // be mistaken for an earlier one by `parse_spec`.
    assert("mitigates"@.len() == 9);
    assert("uses"@.len() == 4);
    assert("revoked-by"@.len() == 10);
    assert("subtechnique-of"@.len() == 15);
}

/// Character-by-character equality of two string slices.
fn str_eq(a: &str, b: &str) -> (r: bool)
    ensures
        r == (a@ == b@),
{
    let a_len = a.unicode_len();
    let b_len = b.unicode_len();
    if a_len != b_len {
        return false;
    }
    let mut i: usize = 0;
    while i < a_len
        invariant
            i <= a_len,
            a_len == a@.len(),
            b_len == b@.len(),
            a_len == b_len,
            forall|j: int| 0 <= j < i ==> a@[j] == b@[j],
        decreases a_len - i,
    {
        if a.get_char(i) != b.get_char(i) {
            return false;
        }
        i += 1;
    }
    proof {
        assert(a@ =~= b@);
    }
    true
}

} // verus!

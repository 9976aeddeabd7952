use stix::relationship_type::{RelationshipType, UnknownRelationshipType};

#[test]
fn round_trip_every_variant() {
    let variants = vec![
        RelationshipType::Mitigates,
        RelationshipType::Uses,
        RelationshipType::RevokedBy,
        RelationshipType::SubtechniqueOf,
    ];
    for v in variants {
        let text = v.to_canonical_string();
        assert_eq!(RelationshipType::parse(&text), Ok(v));
    }
}

#[test]
fn parse_rejects_unknown_strings() {
    assert_eq!(
        RelationshipType::parse("not-a-type"),
        Err(UnknownRelationshipType)
    );
    assert_eq!(RelationshipType::parse(""), Err(UnknownRelationshipType));
    // Case-sensitive: only the exact lowercase-hyphenated form is accepted.
    assert_eq!(
        RelationshipType::parse("Mitigates"),
        Err(UnknownRelationshipType)
    );
    assert_eq!(
        RelationshipType::parse("subtechnique_of"),
        Err(UnknownRelationshipType)
    );
}

#[test]
fn canonical_form_stability() {
    assert_eq!(
        RelationshipType::SubtechniqueOf.to_canonical_string(),
        "subtechnique-of"
    );
    assert_eq!(RelationshipType::Uses.to_canonical_string(), "uses");
    assert_eq!(
        RelationshipType::Mitigates.to_canonical_string(),
        "mitigates"
    );
    assert_eq!(
        RelationshipType::RevokedBy.to_canonical_string(),
        "revoked-by"
    );
}

#[test]
fn parse_accepts_each_canonical_spelling() {
    assert_eq!(
        RelationshipType::parse("mitigates"),
        Ok(RelationshipType::Mitigates)
    );
    assert_eq!(RelationshipType::parse("uses"), Ok(RelationshipType::Uses));
    assert_eq!(
        RelationshipType::parse("revoked-by"),
        Ok(RelationshipType::RevokedBy)
    );
    assert_eq!(
        RelationshipType::parse("subtechnique-of"),
        Ok(RelationshipType::SubtechniqueOf)
    );
}

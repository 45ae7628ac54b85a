use boolenum::{find_variant_with_fields, DeriveError, FieldShape, Variant};

fn invalid_target() -> DeriveError {
    DeriveError::InvalidTarget { target: "Point".to_string() }
}

fn variant_has_fields() -> DeriveError {
    DeriveError::VariantHasFields {
        target: "Flag".to_string(),
        variant: "Yes".to_string(),
        index: 1,
    }
}

fn invalid_variant_names() -> DeriveError {
    DeriveError::InvalidVariantNames { target: "Flag".to_string() }
}

#[test]
fn messages() {
    assert_eq!(invalid_target().message(), "BoolEnum can only be used on enums.");
    assert_eq!(
        variant_has_fields().message(),
        "BoolEnum can only be used on enums with unit-like variants"
    );
    assert_eq!(
        invalid_variant_names().message(),
        "BoolEnum can only be used on enums with two variants named No and Yes, or False and True."
    );
}

#[test]
fn hints() {
    assert_eq!(invalid_target().hint(), None);
    assert_eq!(variant_has_fields().hint(), Some("try `enum Flag { No, Yes }`".to_string()));
    assert_eq!(invalid_variant_names().hint(), Some("try `enum Flag { No, Yes }`".to_string()));
    let other = DeriveError::InvalidVariantNames { target: "UseColors".to_string() };
    assert_eq!(other.hint(), Some("try `enum UseColors { No, Yes }`".to_string()));
}

#[test]
fn subjects_and_targets() {
    assert_eq!(invalid_target().subject(), "Point");
    assert_eq!(invalid_target().target(), "Point");
    assert_eq!(variant_has_fields().subject(), "Yes");
    assert_eq!(variant_has_fields().target(), "Flag");
    assert_eq!(invalid_variant_names().subject(), "Flag");
    assert_eq!(invalid_variant_names().target(), "Flag");
}

#[test]
fn find_variant_with_fields_gives_the_first() {
    let bare = |name: &str| Variant { name: name.to_string(), fields: FieldShape::Unit };
    let tuple = |name: &str| Variant { name: name.to_string(), fields: FieldShape::Tuple };
    assert_eq!(find_variant_with_fields(&vec![]), None);
    assert_eq!(find_variant_with_fields(&vec![bare("No"), bare("Yes")]), None);
    assert_eq!(find_variant_with_fields(&vec![tuple("No"), bare("Yes")]), Some(0));
    assert_eq!(find_variant_with_fields(&vec![bare("No"), tuple("Yes"), tuple("X")]), Some(1));
}

use boolenum::names::{chars_of, name_le, same_name, sort_names};
use boolenum::pair::canonical_pair;
use boolenum::{enum_variant_names, CanonicalPair, FieldShape, Variant};

fn owned(names: &[&str]) -> Vec<String> {
    names.iter().map(|n| n.to_string()).collect()
}

#[test]
fn chars_of_gives_the_characters_in_order() {
    assert_eq!(chars_of(""), Vec::<char>::new());
    assert_eq!(chars_of("Yes"), vec!['Y', 'e', 's']);
    assert_eq!(chars_of("héé"), vec!['h', 'é', 'é']);
}

#[test]
fn same_name_compares_the_texts() {
    assert!(same_name("No", "No"));
    assert!(same_name("", ""));
    assert!(!same_name("No", "no"));
    assert!(!same_name("No", "Not"));
    assert!(!same_name("Not", "No"));
    assert!(!same_name("Yes", "Yet"));
}

#[test]
fn name_le_is_the_order_of_str() {
    let names = ["", "A", "False", "Fals", "No", "Not", "True", "Yes", "a", "no", "é", "z", "日本"];
    for a in names {
        for b in names {
            assert_eq!(name_le(a, b), a <= b, "{:?} <= {:?}", a, b);
        }
    }
}

#[test]
fn name_le_on_the_four_names() {
    assert!(name_le("No", "Yes"));
    assert!(!name_le("Yes", "No"));
    assert!(name_le("False", "True"));
    assert!(!name_le("True", "False"));
    assert!(name_le("False", "No"));
    assert!(name_le("No", "True"));
    assert!(name_le("Yes", "Yes"));
}

#[test]
fn a_prefix_sorts_before_its_extensions() {
    assert!(name_le("No", "Not"));
    assert!(!name_le("Not", "No"));
    assert!(name_le("", "No"));
    assert!(!name_le("No", ""));
}

#[test]
fn sort_names_sorts_as_std_does() {
    let lists: [&[&str]; 7] = [
        &[],
        &["Yes"],
        &["Yes", "No"],
        &["No", "Yes"],
        &["True", "False"],
        &["No", "Yes", "Maybe"],
        &["b", "a", "b", "", "B", "ab", "a"],
    ];
    for list in lists {
        let mut ours = owned(list);
        let mut theirs = owned(list);
        sort_names(&mut ours);
        theirs.sort();
        assert_eq!(ours, theirs);
    }
}

#[test]
fn sort_names_keeps_repeated_names() {
    let mut names = owned(&["Yes", "No", "Yes"]);
    sort_names(&mut names);
    assert_eq!(names, owned(&["No", "Yes", "Yes"]));
}

#[test]
fn enum_variant_names_keeps_declaration_order() {
    let variants = vec![
        Variant { name: "Yes".to_string(), fields: FieldShape::Unit },
        Variant { name: "No".to_string(), fields: FieldShape::Tuple },
        Variant { name: "Maybe".to_string(), fields: FieldShape::Struct },
    ];
    assert_eq!(enum_variant_names(&variants), owned(&["Yes", "No", "Maybe"]));
    assert_eq!(enum_variant_names(&Vec::new()), Vec::<String>::new());
}

#[test]
fn canonical_pair_matches_in_either_order() {
    assert_eq!(canonical_pair(owned(&["No", "Yes"])), Some(CanonicalPair::NoYes));
    assert_eq!(canonical_pair(owned(&["Yes", "No"])), Some(CanonicalPair::NoYes));
    assert_eq!(canonical_pair(owned(&["False", "True"])), Some(CanonicalPair::FalseTrue));
    assert_eq!(canonical_pair(owned(&["True", "False"])), Some(CanonicalPair::FalseTrue));
    assert_eq!(canonical_pair(owned(&["True", "No"])), None);
    assert_eq!(canonical_pair(owned(&["No"])), None);
    assert_eq!(canonical_pair(owned(&[])), None);
    assert_eq!(canonical_pair(owned(&["No", "Yes", "Yes"])), None);
}

#[test]
fn field_shapes() {
    assert!(FieldShape::Unit.is_unit());
    assert!(!FieldShape::Tuple.is_unit());
    assert!(!FieldShape::Struct.is_unit());
}

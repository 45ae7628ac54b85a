//! What holds of every declaration and of everything generated.

use crate::declaration::{all_unit_like, variant_names, BodyView, DeclarationView, VariantView};
use crate::error::DeriveErrorView;
use crate::names::{lemma_sorted_texts_unique, lex_le, lex_order, sorted_texts};
use crate::pair::{matching_pair, CanonicalPair};
use crate::transform::outcome;
use crate::unit::GeneratedUnitView;
use vstd::prelude::*;
use vstd::relations::sorted_by;

verus! {

/// The four names are `No`, `Yes`, `False` and `True`, letter by letter.
pub proof fn lemma_pair_texts()
    ensures
        CanonicalPair::NoYes.falsy_text() == seq!['N', 'o'],
        CanonicalPair::NoYes.truthy_text() == seq!['Y', 'e', 's'],
        CanonicalPair::FalseTrue.falsy_text() == seq!['F', 'a', 'l', 's', 'e'],
        CanonicalPair::FalseTrue.truthy_text() == seq!['T', 'r', 'u', 'e'],
{
    reveal_strlit("No");
    reveal_strlit("Yes");
    reveal_strlit("False");
    reveal_strlit("True");
    assert("No"@ =~= seq!['N', 'o']);
    assert("Yes"@ =~= seq!['Y', 'e', 's']);
    assert("False"@ =~= seq!['F', 'a', 'l', 's', 'e']);
    assert("True"@ =~= seq!['T', 'r', 'u', 'e']);
}

/// In each pair the falsy name differs from the truthy one and sorts before
/// it, and the two pairs share no name.
pub proof fn lemma_pair_names(pair: CanonicalPair)
    ensures
        pair.falsy_text() != pair.truthy_text(),
        lex_le(pair.falsy_text(), pair.truthy_text()),
        sorted_by(pair.sorted_names(), lex_order()),
        CanonicalPair::NoYes.sorted_names() != CanonicalPair::FalseTrue.sorted_names(),
{
    lemma_pair_texts();
    let f = pair.falsy_text();
    let t = pair.truthy_text();
    assert(f[0] != t[0]);
    assert(f[0] < t[0]);
    assert(CanonicalPair::NoYes.sorted_names()[0][0] == 'N');
    assert(CanonicalPair::FalseTrue.sorted_names()[0][0] == 'F');
}

/// Lists that hold the same texts sort to the same list.
pub proof fn lemma_sorting_forgets_order(a: Seq<Seq<char>>, b: Seq<Seq<char>>)
    requires
        a.to_multiset() == b.to_multiset(),
    ensures
        sorted_texts(a) == sorted_texts(b),
{
    crate::names::lemma_lex_order_total();
    a.lemma_sort_by_ensures(lex_order());
    lemma_sorted_texts_unique(b, sorted_texts(a));
}

/// A list of names matches a pair exactly when it holds the pair's two
/// names and nothing else, in either order.
pub proof fn law_pair_in_either_order(names: Seq<Seq<char>>, pair: CanonicalPair)
    ensures
        matching_pair(names) == Some(pair) <==> (names == pair.sorted_names() || names
            == pair.sorted_names().reverse()),
{
    broadcast use vstd::seq_lib::group_to_multiset_ensures;

    let wanted = pair.sorted_names();
    let f = pair.falsy_text();
    let t = pair.truthy_text();
    lemma_pair_names(pair);
    crate::names::lemma_lex_order_total();
    names.lemma_sort_by_ensures(lex_order());
    if names == wanted || names == wanted.reverse() {
        wanted.lemma_reverse_to_multiset();
        lemma_sorted_texts_unique(names, wanted);
    }
    if matching_pair(names) == Some(pair) {
        assert(sorted_texts(names) == wanted);
        assert(names.to_multiset() =~= wanted.to_multiset());
        assert(names.len() == names.to_multiset().len());
        assert(wanted.len() == wanted.to_multiset().len());
        assert(names.len() == 2);
        assert(wanted =~= seq![f].push(t));
        assert(wanted.to_multiset().count(f) == 1);
        assert(wanted.to_multiset().count(t) == 1);
        assert(names.contains(names[0]) && names.contains(names[1]));
        assert(names.to_multiset().count(names[0]) > 0);
        assert(names.to_multiset().count(names[1]) > 0);
        assert(wanted.to_multiset().count(names[0]) > 0);
        assert(wanted.to_multiset().count(names[1]) > 0);
        assert(wanted.contains(names[0]) && wanted.contains(names[1]));
        if names[0] == names[1] {
            assert(names =~= seq![names[0]].push(names[0]));
            assert(names.to_multiset().count(names[0]) == 2);
        }
        assert(names =~= wanted || names =~= wanted.reverse());
    }
}

/// A declaration is accepted, and given the names of `pair`, exactly when it
/// is an enum of two bare variants that bear the pair's two names, in either
/// order. What is generated then goes by the declared name.
pub proof fn law_accepted(declaration: DeclarationView, pair: CanonicalPair)
    ensures
        outcome(declaration) == Ok::<GeneratedUnitView, DeriveErrorView>(
            GeneratedUnitView { name: declaration.name, pair },
        ) <==> {
            &&& declaration.body matches BodyView::Enum(variants)
            &&& all_unit_like(variants)
            &&& (variant_names(variants) == pair.sorted_names() || variant_names(variants)
                == pair.sorted_names().reverse())
        },
        outcome(declaration) matches Ok(unit) ==> unit.name == declaration.name,
{
    if let BodyView::Enum(variants) = declaration.body {
        law_pair_in_either_order(variant_names(variants), pair);
    }
}

/// Of every declaration that is accepted: the construction from `bool`
/// gives the truthy variant for `true` and the falsy one for `false`, where
/// of the two variants' names the one that sorts first is the falsy one and
/// the other the truthy one.
pub proof fn law_from_boolean(declaration: DeclarationView)
    requires
        outcome(declaration) is Ok,
    ensures
        ({
            let unit = outcome(declaration)->Ok_0;
            let sorted = sorted_texts(variant_names(declaration.body->Enum_0));
            &&& declaration.body is Enum
            &&& unit.name == declaration.name
            &&& sorted == seq!["No"@, "Yes"@] || sorted == seq!["False"@, "True"@]
            &&& unit.falsy() == sorted[0]
            &&& unit.truthy() == sorted[1]
            &&& unit.from_boolean(false) == unit.falsy()
            &&& unit.from_boolean(true) == unit.truthy()
        }),
{
}

/// Of every generated unit: a `bool` made into a variant and back is the
/// same `bool`.
pub proof fn law_round_trip(unit: GeneratedUnitView, b: bool)
    ensures
        unit.has_variant(unit.from_boolean(b)),
        unit.to_boolean(unit.from_boolean(b)) == b,
{
    lemma_pair_names(unit.pair);
}

/// Of every generated unit and both its variants: negating twice gives the
/// variant back.
pub proof fn law_negation_involution(unit: GeneratedUnitView, variant: Seq<char>)
    requires
        unit.has_variant(variant),
    ensures
        unit.has_variant(unit.negation(variant)),
        unit.negation(unit.negation(variant)) == variant,
{
    lemma_pair_names(unit.pair);
}

/// Of every generated unit and both its variants: the negation is the other
/// variant, and stands for the other `bool`.
pub proof fn law_negation_flips(unit: GeneratedUnitView, variant: Seq<char>)
    requires
        unit.has_variant(variant),
    ensures
        unit.negation(variant) != variant,
        unit.to_boolean(unit.negation(variant)) == !unit.to_boolean(variant),
{
    lemma_pair_names(unit.pair);
}

/// Taking the names of the variants keeps what is held, order apart.
pub proof fn lemma_names_of_same_variants(a: Seq<VariantView>, b: Seq<VariantView>)
    requires
        a.to_multiset() == b.to_multiset(),
    ensures
        variant_names(a).to_multiset() == variant_names(b).to_multiset(),
        all_unit_like(a) == all_unit_like(b),
    decreases a.len(),
{
    broadcast use vstd::seq_lib::group_to_multiset_ensures;

    assert(a.len() == a.to_multiset().len());
    assert(b.len() == b.to_multiset().len());
    if a.len() == 0 {
        assert(variant_names(a) =~= variant_names(b));
    } else {
        let first = a[0];
        assert(a.contains(first));
        assert(a.to_multiset().count(first) > 0);
        assert(b.to_multiset().count(first) > 0);
        assert(b.contains(first));
        let k = choose|k: int| 0 <= k < b.len() && b[k] == first;
        let a_rest = a.remove(0);
        let b_rest = b.remove(k);
        assert(a_rest.to_multiset() =~= b_rest.to_multiset());
        lemma_names_of_same_variants(a_rest, b_rest);
        assert(variant_names(a_rest) =~= variant_names(a).remove(0));
        assert(variant_names(b_rest) =~= variant_names(b).remove(k));
        assert(variant_names(a).to_multiset() =~= variant_names(a_rest).to_multiset().insert(
            first.name,
        ));
        assert(variant_names(b).to_multiset() =~= variant_names(b_rest).to_multiset().insert(
            first.name,
        ));
        assert forall|i: int| 0 <= i < a_rest.len() implies a_rest[i] == a[i + 1] by {}
        assert forall|i: int| 0 <= i < b_rest.len() implies b_rest[i] == b[if i < k {
            i
        } else {
            i + 1
        }] by {}
        if all_unit_like(a) {
            assert(a[0].fields.is_unit_like());
            assert forall|i: int| 0 <= i < a_rest.len() implies (#[trigger] a_rest[i]).fields.is_unit_like() by {
                assert(a[i + 1].fields.is_unit_like());
            }
            assert forall|i: int| 0 <= i < b.len() implies (#[trigger] b[i]).fields.is_unit_like() by {
                if i < k {
                    assert(b_rest[i] == b[i]);
                } else if i > k {
                    assert(b_rest[i - 1] == b[i]);
                }
            }
        }
        if all_unit_like(b) {
            assert(b[k].fields.is_unit_like());
            assert forall|i: int| 0 <= i < b_rest.len() implies (#[trigger] b_rest[i]).fields.is_unit_like() by {
                assert(b[if i < k { i } else { i + 1 }].fields.is_unit_like());
            }
            assert forall|i: int| 0 <= i < a.len() implies (#[trigger] a[i]).fields.is_unit_like() by {
                if i > 0 {
                    assert(a_rest[i - 1] == a[i]);
                }
            }
        }
    }
}

/// The order in which the variants are declared does not matter: two enums
/// of one name that hold the same variants are accepted or turned down
/// together, and what is generated for the one is generated for the other.
/// Only a diagnostic on a variant with fields depends on the order, as it
/// names the first such variant.
pub proof fn law_declaration_order(a: DeclarationView, b: DeclarationView)
    requires
        a.name == b.name,
        a.body is Enum,
        b.body is Enum,
        a.body->Enum_0.to_multiset() == b.body->Enum_0.to_multiset(),
    ensures
        outcome(a) is Ok <==> outcome(b) is Ok,
        outcome(a) is Ok ==> outcome(a) == outcome(b),
        all_unit_like(a.body->Enum_0) ==> outcome(a) == outcome(b),
{
    let va = a.body->Enum_0;
    let vb = b.body->Enum_0;
    lemma_names_of_same_variants(va, vb);
    lemma_sorting_forgets_order(variant_names(va), variant_names(vb));
}

} // verus!

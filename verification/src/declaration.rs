//! The declaration that a derive is asked for, as plain data.

use crate::names::texts;
use vstd::prelude::*;

verus! {

/// How a variant is written: bare, with a tuple of fields, or with named
/// fields. `Yes()` and `Yes {}` hold no data, yet they are not written bare.
#[derive(Clone, Copy, Debug, PartialEq, Eq, Structural)]
pub enum FieldShape {
    Unit,
    Tuple,
    Struct,
}

impl FieldShape {
    /// Whether the variant is written without any field list.
    pub open spec fn is_unit_like(self) -> bool {
        self is Unit
    }

    pub fn is_unit(self) -> (r: bool)
        ensures
            r == self.is_unit_like(),
    {
        match self {
            FieldShape::Unit => true,
            _ => false,
        }
    }
}

/// One variant of an enum: its identifier and the shape of its fields.
#[derive(Clone, Debug, PartialEq, Eq)]
pub struct Variant {
    pub name: String,
    pub fields: FieldShape,
}

pub struct VariantView {
    pub name: Seq<char>,
    pub fields: FieldShape,
}

impl View for Variant {
    type V = VariantView;

    open spec fn view(&self) -> VariantView {
        VariantView { name: self.name@, fields: self.fields }
    }
}

/// What stands behind the declared name: the variants of an enum, in the
/// order in which they are written, or the mark of another kind of type.
#[derive(Clone, Debug, PartialEq, Eq)]
pub enum Body {
    Enum(Vec<Variant>),
    Struct,
    Union,
}

pub enum BodyView {
    Enum(Seq<VariantView>),
    Struct,
    Union,
}

/// The views of a list of variants, in the same order.
pub open spec fn variant_views(variants: Seq<Variant>) -> Seq<VariantView> {
    variants.map_values(|v: Variant| v@)
}

impl View for Body {
    type V = BodyView;

    open spec fn view(&self) -> BodyView {
        match self {
            Body::Enum(variants) => BodyView::Enum(variant_views(variants@)),
            Body::Struct => BodyView::Struct,
            Body::Union => BodyView::Union,
        }
    }
}

/// A type declaration: its identifier and its body.
#[derive(Clone, Debug, PartialEq, Eq)]
pub struct Declaration {
    pub name: String,
    pub body: Body,
}

pub struct DeclarationView {
    pub name: Seq<char>,
    pub body: BodyView,
}

impl View for Declaration {
    type V = DeclarationView;

    open spec fn view(&self) -> DeclarationView {
        DeclarationView { name: self.name@, body: self.body@ }
    }
}

/// The identifiers of the variants, in declaration order.
pub open spec fn variant_names(variants: Seq<VariantView>) -> Seq<Seq<char>> {
    variants.map_values(|v: VariantView| v.name)
}

/// Every variant is written bare.
pub open spec fn all_unit_like(variants: Seq<VariantView>) -> bool {
    forall|i: int| 0 <= i < variants.len() ==> (#[trigger] variants[i]).fields.is_unit_like()
}

/// The variant at `index` is the first that is not written bare.
pub open spec fn is_first_with_fields(variants: Seq<VariantView>, index: int) -> bool {
    &&& 0 <= index < variants.len()
    &&& !variants[index].fields.is_unit_like()
    &&& all_unit_like(variants.take(index))
}

/// The position of the first variant that is not written bare, where there
/// is one.
pub open spec fn first_with_fields(variants: Seq<VariantView>) -> int {
    choose|index: int| is_first_with_fields(variants, index)
}

/// There is at most one first variant with fields.
pub proof fn lemma_first_with_fields(variants: Seq<VariantView>, index: int)
    requires
        is_first_with_fields(variants, index),
    ensures
        first_with_fields(variants) == index,
        !all_unit_like(variants),
{
    let chosen = first_with_fields(variants);
    assert(is_first_with_fields(variants, chosen));
    if chosen < index {
        assert(variants.take(index)[chosen] == variants[chosen]);
    }
    if index < chosen {
        assert(variants.take(chosen)[index] == variants[index]);
    }
}

/// Collects the identifiers of the variants, in declaration order.
pub fn enum_variant_names(variants: &Vec<Variant>) -> (names: Vec<String>)
    ensures
        texts(names@) == variant_names(variant_views(variants@)),
{
    let ghost wanted = variant_names(variant_views(variants@));
    let mut names: Vec<String> = Vec::new();
    let mut i: usize = 0;
    while i < variants.len()
        invariant
            i <= variants.len(),
            wanted == variant_names(variant_views(variants@)),
            texts(names@) == wanted.take(i as int),
        decreases variants.len() - i,
    {
        let ghost before = texts(names@);
        names.push(variants[i].name.clone());
        assert(texts(names@) =~= before.push(wanted[i as int]));
        assert(before.push(wanted[i as int]) =~= wanted.take(i + 1));
        i += 1;
    }
    assert(wanted.take(i as int) =~= wanted);
    names
}

} // verus!

//! From a declaration to what is generated for it, or to a diagnostic.

use crate::declaration::{
    all_unit_like, first_with_fields, is_first_with_fields, variant_names, variant_views,
    BodyView, DeclarationView, Variant,
};
use crate::error::{DeriveError, DeriveErrorView};
use crate::pair::matching_pair;
use crate::unit::{GeneratedUnit, GeneratedUnitView};
use vstd::prelude::*;

verus! {

/// What a derive on `declaration` comes to. Three things are asked of it,
/// in this order, and the first that fails decides:
///
/// 1. the declaration is an enum;
/// 2. every variant is written bare, the first that is not being named;
/// 3. the variants' names, sorted, are `No`, `Yes` or `False`, `True`.
pub open spec fn outcome(declaration: DeclarationView) -> Result<
    GeneratedUnitView,
    DeriveErrorView,
> {
    match declaration.body {
        BodyView::Enum(variants) => {
            if !all_unit_like(variants) {
                let index = first_with_fields(variants);
                Err(
                    DeriveErrorView::VariantHasFields {
                        target: declaration.name,
                        variant: variants[index].name,
                        index,
                    },
                )
            } else {
                match matching_pair(variant_names(variants)) {
                    Some(pair) => Ok(GeneratedUnitView { name: declaration.name, pair }),
                    None => Err(
                        DeriveErrorView::InvalidVariantNames { target: declaration.name },
                    ),
                }
            }
        },
        _ => Err(DeriveErrorView::InvalidTarget { target: declaration.name }),
    }
}

/// The view of a derive's result.
pub open spec fn result_view(result: Result<GeneratedUnit, DeriveError>) -> Result<
    GeneratedUnitView,
    DeriveErrorView,
> {
    match result {
        Ok(unit) => Ok(unit@),
        Err(error) => Err(error@),
    }
}

/// The position of the first variant that is not written bare, if there is
/// one.
pub fn find_variant_with_fields(variants: &Vec<Variant>) -> (found: Option<usize>)
    ensures
        match found {
            Some(index) => is_first_with_fields(variant_views(variants@), index as int),
            None => all_unit_like(variant_views(variants@)),
        },
{
    let mut i: usize = 0;
    while i < variants.len()
        invariant
            i <= variants.len(),
            all_unit_like(variant_views(variants@).take(i as int)),
        decreases variants.len() - i,
    {
        if !variants[i].fields.is_unit() {
            return Some(i);
        }
        assert(variant_views(variants@).take(i + 1) =~= variant_views(variants@).take(
            i as int,
        ).push(variant_views(variants@)[i as int]));
        i += 1;
    }
    assert(variant_views(variants@).take(i as int) =~= variant_views(variants@));
    None
}

} // verus!

//! Boolean enums.
//!
//! An enum with the two unit variants `No` and `Yes`, or `False` and `True`,
//! written in either order, stands for a `bool` with a name. This library
//! holds the rules by which such a declaration is recognised and what is
//! generated for it: a construction from `bool`, a conversion to `bool`, and
//! a negation.
//!
//! [`derive`] takes a [`Declaration`] and gives either the [`GeneratedUnit`]
//! or the [`DeriveError`] that says what is wrong with the declaration.

pub mod declaration;
pub mod error;
pub mod laws;
pub mod names;
pub mod pair;
pub mod transform;
pub mod unit;

pub use declaration::{enum_variant_names, Body, Declaration, FieldShape, Variant};
pub use error::DeriveError;
pub use pair::CanonicalPair;
pub use transform::{find_variant_with_fields, outcome, result_view};
pub use unit::GeneratedUnit;

use declaration::{lemma_first_with_fields, variant_views};
use pair::canonical_pair;
use vstd::prelude::*;

verus! {

/// Makes a boolean enum of `declaration`, or says why none can be made.
pub fn derive(declaration: &Declaration) -> (result: Result<GeneratedUnit, DeriveError>)
    ensures
        result_view(result) == outcome(declaration@),
{
    let variants = match &declaration.body {
        Body::Enum(variants) => variants,
        _ => {
            return Err(DeriveError::InvalidTarget { target: declaration.name.clone() });
        },
    };
    if let Some(index) = find_variant_with_fields(variants) {
        proof {
            lemma_first_with_fields(variant_views(variants@), index as int);
        }
        return Err(
            DeriveError::VariantHasFields {
                target: declaration.name.clone(),
                variant: variants[index].name.clone(),
                index,
            },
        );
    }
    match canonical_pair(enum_variant_names(variants)) {
        Some(pair) => Ok(GeneratedUnit { name: declaration.name.clone(), pair }),
        None => Err(DeriveError::InvalidVariantNames { target: declaration.name.clone() }),
    }
}

} // verus!

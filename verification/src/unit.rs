//! What is generated for a boolean enum: three definitions on its name.

use crate::names::same_name;
use crate::pair::CanonicalPair;
use vstd::prelude::*;

verus! {

/// The three definitions generated for a boolean enum. Each speaks of the
/// enum by `name` and of its two variants by the names of `pair`. A value of
/// the enum is one of its two variants, and is given here by the variant's
/// name.
#[derive(Clone, Debug, PartialEq, Eq)]
pub struct GeneratedUnit {
    pub name: String,
    pub pair: CanonicalPair,
}

pub struct GeneratedUnitView {
    pub name: Seq<char>,
    pub pair: CanonicalPair,
}

impl View for GeneratedUnit {
    type V = GeneratedUnitView;

    open spec fn view(&self) -> GeneratedUnitView {
        GeneratedUnitView { name: self.name@, pair: self.pair }
    }
}

impl GeneratedUnitView {
    /// The variant that stands for `false`.
    pub open spec fn falsy(self) -> Seq<char> {
        self.pair.falsy_text()
    }

    /// The variant that stands for `true`.
    pub open spec fn truthy(self) -> Seq<char> {
        self.pair.truthy_text()
    }

    /// `variant` is one of the enum's two variants.
    pub open spec fn has_variant(self, variant: Seq<char>) -> bool {
        variant == self.falsy() || variant == self.truthy()
    }

    /// The variant that the enum's `From<bool>` makes of `b`.
    pub open spec fn from_boolean(self, b: bool) -> Seq<char> {
        if b {
            self.truthy()
        } else {
            self.falsy()
        }
    }

    /// The `bool` that the enum's `Into<bool>` makes of `variant`.
    pub open spec fn to_boolean(self, variant: Seq<char>) -> bool
        recommends
            self.has_variant(variant),
    {
        variant == self.truthy()
    }

    /// The variant that the enum's `Not` makes of `variant`.
    pub open spec fn negation(self, variant: Seq<char>) -> Seq<char>
        recommends
            self.has_variant(variant),
    {
        if variant == self.truthy() {
            self.falsy()
        } else {
            self.truthy()
        }
    }
}

impl GeneratedUnit {
    /// The name of the variant that stands for `false`.
    pub fn falsy(&self) -> (name: &'static str)
        ensures
            name@ == self@.falsy(),
    {
        self.pair.falsy()
    }

    /// The name of the variant that stands for `true`.
    pub fn truthy(&self) -> (name: &'static str)
        ensures
            name@ == self@.truthy(),
    {
        self.pair.truthy()
    }

    /// Construction from a `bool`: `true` gives the truthy variant, `false`
    /// the falsy one.
    pub fn from_boolean(&self, b: bool) -> (variant: &'static str)
        ensures
            variant@ == self@.from_boolean(b),
    {
        if b {
            self.pair.truthy()
        } else {
            self.pair.falsy()
        }
    }

    /// Conversion to a `bool`: whether `variant` is the truthy one.
    pub fn to_boolean(&self, variant: &str) -> (b: bool)
        requires
            self@.has_variant(variant@),
        ensures
            b == self@.to_boolean(variant@),
    {
        same_name(variant, self.pair.truthy())
    }

    /// Negation: the other variant of the two.
    pub fn negation(&self, variant: &str) -> (other: &'static str)
        requires
            self@.has_variant(variant@),
        ensures
            other@ == self@.negation(variant@),
    {
        if same_name(variant, self.pair.truthy()) {
            self.pair.falsy()
        } else {
            self.pair.truthy()
        }
    }
}

} // verus!

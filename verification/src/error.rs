//! The diagnostics with which a declaration is turned down.

use vstd::prelude::*;
use vstd::string::StringExecFns;

verus! {

/// Why no boolean enum can be made of a declaration. Each kind names the
/// identifier at which the diagnostic is to be shown.
#[derive(Clone, Debug, PartialEq, Eq)]
pub enum DeriveError {
    /// The declaration `target` is no enum.
    InvalidTarget { target: String },
    /// The variant `variant`, at position `index` of the enum `target`, is
    /// not written bare.
    VariantHasFields { target: String, variant: String, index: usize },
    /// The variants of the enum `target` are not named `No` and `Yes`, or
    /// `False` and `True`.
    InvalidVariantNames { target: String },
}

pub enum DeriveErrorView {
    InvalidTarget { target: Seq<char> },
    VariantHasFields { target: Seq<char>, variant: Seq<char>, index: int },
    InvalidVariantNames { target: Seq<char> },
}

impl View for DeriveError {
    type V = DeriveErrorView;

    open spec fn view(&self) -> DeriveErrorView {
        match self {
            DeriveError::InvalidTarget { target } => DeriveErrorView::InvalidTarget {
                target: target@,
            },
            DeriveError::VariantHasFields {
                target,
                variant,
                index,
            } => DeriveErrorView::VariantHasFields {
                target: target@,
                variant: variant@,
                index: *index as int,
            },
            DeriveError::InvalidVariantNames { target } => DeriveErrorView::InvalidVariantNames {
                target: target@,
            },
        }
    }
}

/// The hint that shows a declaration of `target` as it should read.
pub open spec fn hint_text(target: Seq<char>) -> Seq<char> {
    "try `enum "@ + target + " { No, Yes }`"@
}

impl DeriveErrorView {
    /// The declared name of the type that was turned down.
    pub open spec fn target(self) -> Seq<char> {
        match self {
            DeriveErrorView::InvalidTarget { target } => target,
            DeriveErrorView::VariantHasFields { target, .. } => target,
            DeriveErrorView::InvalidVariantNames { target } => target,
        }
    }

    /// The identifier at which the diagnostic is shown: the offending
    /// variant where one variant is at fault, else the declared name.
    pub open spec fn subject(self) -> Seq<char> {
        match self {
            DeriveErrorView::VariantHasFields { variant, .. } => variant,
            _ => self.target(),
        }
    }

    /// What the diagnostic says.
    pub open spec fn message(self) -> Seq<char> {
        match self {
            DeriveErrorView::InvalidTarget { .. } => "BoolEnum can only be used on enums."@,
            DeriveErrorView::VariantHasFields { .. } =>
                "BoolEnum can only be used on enums with unit-like variants"@,
            DeriveErrorView::InvalidVariantNames { .. } =>
                "BoolEnum can only be used on enums with two variants named No and Yes, or False and True."@,
        }
    }

    /// The hint that goes with the diagnostic: none for a declaration that
    /// is no enum, else the enum as it should read.
    pub open spec fn hint(self) -> Option<Seq<char>> {
        match self {
            DeriveErrorView::InvalidTarget { .. } => None,
            _ => Some(hint_text(self.target())),
        }
    }
}

impl DeriveError {
    /// The declared name of the type that was turned down.
    pub fn target(&self) -> (name: &str)
        ensures
            name@ == self@.target(),
    {
        match self {
            DeriveError::InvalidTarget { target } => target.as_str(),
            DeriveError::VariantHasFields { target, .. } => target.as_str(),
            DeriveError::InvalidVariantNames { target } => target.as_str(),
        }
    }

    /// The identifier at which the diagnostic is to be shown.
    pub fn subject(&self) -> (name: &str)
        ensures
            name@ == self@.subject(),
    {
        match self {
            DeriveError::InvalidTarget { target } => target.as_str(),
            DeriveError::VariantHasFields { variant, .. } => variant.as_str(),
            DeriveError::InvalidVariantNames { target } => target.as_str(),
        }
    }

    /// What the diagnostic says.
    pub fn message(&self) -> (text: &'static str)
        ensures
            text@ == self@.message(),
    {
        match self {
            DeriveError::InvalidTarget { .. } => "BoolEnum can only be used on enums.",
            DeriveError::VariantHasFields { .. } =>
                "BoolEnum can only be used on enums with unit-like variants",
            DeriveError::InvalidVariantNames { .. } =>
                "BoolEnum can only be used on enums with two variants named No and Yes, or False and True.",
        }
    }

    /// The hint that goes with the diagnostic, where it has one.
    pub fn hint(&self) -> (text: Option<String>)
        ensures
            self@.hint() == match text {
                Some(t) => Some(t@),
                None => None,
            },
    {
        match self {
            DeriveError::InvalidTarget { .. } => None,
            _ => {
                let mut text = String::from_str("try `enum ");
                text.append(self.target());
                text.append(" { No, Yes }`");
                Some(text)
            },
        }
    }
}

} // verus!

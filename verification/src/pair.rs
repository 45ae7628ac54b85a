//! The two pairs of variant names that make a boolean enum.

use crate::names::{same_name, sort_names, sorted_texts, texts};
use vstd::prelude::*;

verus! {

/// The names of a boolean enum's two variants: `No` and `Yes`, or `False`
/// and `True`. In each pair the name that sorts first stands for `false`.
#[derive(Clone, Copy, Debug, PartialEq, Eq, Structural)]
pub enum CanonicalPair {
    NoYes,
    FalseTrue,
}

impl CanonicalPair {
    /// The name of the variant that stands for `false`.
    pub open spec fn falsy_text(self) -> Seq<char> {
        match self {
            CanonicalPair::NoYes => "No"@,
            CanonicalPair::FalseTrue => "False"@,
        }
    }

    /// The name of the variant that stands for `true`.
    pub open spec fn truthy_text(self) -> Seq<char> {
        match self {
            CanonicalPair::NoYes => "Yes"@,
            CanonicalPair::FalseTrue => "True"@,
        }
    }

    /// Both names, the falsy one first: the pair in lexicographic order.
    pub open spec fn sorted_names(self) -> Seq<Seq<char>> {
        seq![self.falsy_text(), self.truthy_text()]
    }

    pub fn falsy(self) -> (name: &'static str)
        ensures
            name@ == self.falsy_text(),
    {
        match self {
            CanonicalPair::NoYes => "No",
            CanonicalPair::FalseTrue => "False",
        }
    }

    pub fn truthy(self) -> (name: &'static str)
        ensures
            name@ == self.truthy_text(),
    {
        match self {
            CanonicalPair::NoYes => "Yes",
            CanonicalPair::FalseTrue => "True",
        }
    }
}

/// The pair whose names are exactly `names`, once these are sorted.
pub open spec fn matching_pair(names: Seq<Seq<char>>) -> Option<CanonicalPair> {
    let sorted = sorted_texts(names);
    if sorted == CanonicalPair::NoYes.sorted_names() {
        Some(CanonicalPair::NoYes)
    } else if sorted == CanonicalPair::FalseTrue.sorted_names() {
        Some(CanonicalPair::FalseTrue)
    } else {
        None
    }
}

/// Whether `sorted` holds the names of `pair`, falsy first.
fn holds_pair(sorted: &Vec<String>, pair: CanonicalPair) -> (r: bool)
    ensures
        r == (texts(sorted@) == pair.sorted_names()),
{
    if sorted.len() != 2 {
        return false;
    }
    let r = same_name(sorted[0].as_str(), pair.falsy()) && same_name(
        sorted[1].as_str(),
        pair.truthy(),
    );
    proof {
        if r {
            assert(texts(sorted@) =~= pair.sorted_names());
        } else {
            assert(texts(sorted@)[0] == sorted@[0]@);
            assert(texts(sorted@)[1] == sorted@[1]@);
        }
    }
    r
}

/// Sorts the names and holds them against the two pairs.
pub fn canonical_pair(names: Vec<String>) -> (pair: Option<CanonicalPair>)
    ensures
        pair == matching_pair(texts(names@)),
{
    let mut sorted = names;
    sort_names(&mut sorted);
    if holds_pair(&sorted, CanonicalPair::NoYes) {
        Some(CanonicalPair::NoYes)
    } else if holds_pair(&sorted, CanonicalPair::FalseTrue) {
        Some(CanonicalPair::FalseTrue)
    } else {
        None
    }
}

} // verus!

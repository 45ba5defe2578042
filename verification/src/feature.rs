//! Feature handles and lookup by architecture and name.

use crate::architecture::Architecture;
use crate::table::{
    architecture_at, description_at, entry_matches, feature_table, implied_indices, name_at,
    FeatureEntry, FEATURE_COUNT,
};
use vstd::prelude::*;
use vstd::string::StringSliceAdditionalSpecFns;
use vstd::utf8::encode_utf8_decode_utf8;

verus! {

/// Returned by [`Feature::new`] when the requested feature can't be found.
#[derive(Copy, Clone, Debug, PartialEq, Eq)]
pub struct UnknownFeature;

/// A target feature: a handle on one row of the feature table.
#[derive(Copy, Clone, Debug, PartialEq, Eq, Structural)]
pub struct Feature(usize);

/// The table holds a row for `architecture` called `name`.
pub open spec fn is_known(architecture: Architecture, name: Seq<char>) -> bool {
    exists|i: int| entry_matches(i, architecture, name)
}

/// Row `i` is the first row for `architecture` called `name`.
pub open spec fn is_first_match(i: int, architecture: Architecture, name: Seq<char>) -> bool {
    &&& entry_matches(i, architecture, name)
    &&& forall|j: int| 0 <= j < i ==> !entry_matches(j, architecture, name)
}

/// The row that a lookup of `name` under `architecture` finds, if there is one.
pub open spec fn lookup(architecture: Architecture, name: Seq<char>) -> Option<nat> {
    if is_known(architecture, name) {
        Some(choose|i: nat| is_first_match(i as int, architecture, name))
    } else {
        None
    }
}

/// The first matching row is the one that [`lookup`] names.
pub proof fn lemma_first_match_is_lookup(i: int, architecture: Architecture, name: Seq<char>)
    requires
        is_first_match(i, architecture, name),
    ensures
        lookup(architecture, name) == Some(i as nat),
{
    assert(is_first_match(i as nat as int, architecture, name));
    let c = choose|c: nat| is_first_match(c as int, architecture, name);
    assert(c == i) by {
        if c < i {
            assert(!entry_matches(c as int, architecture, name));
        }
    }
}

/// Whether two strings hold the same text, compared byte by byte after their lengths.
fn str_eq(a: &str, b: &str) -> (same: bool)
    ensures
        same == (a@ == b@),
{
    let a_bytes = a.as_bytes();
    let b_bytes = b.as_bytes();
    proof {
        encode_utf8_decode_utf8(a@);
        encode_utf8_decode_utf8(b@);
    }
    if a_bytes.len() != b_bytes.len() {
        return false;
    }
    let mut i: usize = 0;
    while i < a_bytes.len()
        invariant
            a_bytes@.len() == b_bytes@.len(),
            i <= a_bytes@.len(),
            a_bytes@ == a.spec_bytes(),
            b_bytes@ == b.spec_bytes(),
            forall|k: int| 0 <= k < i ==> a_bytes@[k] == b_bytes@[k],
        decreases a_bytes@.len() - i,
    {
        if a_bytes[i] != b_bytes[i] {
            return false;
        }
        i += 1;
    }
    assert(a_bytes@ =~= b_bytes@);
    true
}

/// The handles of the rows that row `i` implies, in the table's order.
fn implied_features(i: usize) -> (list: &'static [Feature])
    requires
        i < feature_table().len(),
    ensures
        list@.len() == implied_indices(i as int).len(),
        forall|k: int| 0 <= k < list@.len() ==> (#[trigger] list@[k]).index() == implied_indices(i as int)[k],
        forall|k: int| 0 <= k < list@.len() ==> (#[trigger] list@[k]).is_valid(),
{
    match i {
        0 | 4 => &[Feature(3), Feature(7), Feature(6)],
        3 | 8 => &[Feature(7), Feature(6)],
        7 => &[Feature(6)],
        9 | 11 | 15 | 17 => &[Feature(13)],
        16 => &[Feature(15), Feature(13)],
        18 => &[Feature(17), Feature(13)],
        21 => &[Feature(20)],
        23 => &[Feature(22)],
        25 => &[Feature(27), Feature(24)],
        26 => &[Feature(25), Feature(27), Feature(24)],
        27 => &[Feature(24)],
        30 => &[Feature(31)],
        35 => &[Feature(36)],
        38 | 48 => &[Feature(47), Feature(46)],
        39 => &[Feature(50), Feature(49), Feature(51), Feature(48), Feature(47), Feature(46)],
        40 | 43 => &[
            Feature(39),
            Feature(50),
            Feature(49),
            Feature(51),
            Feature(48),
            Feature(47),
            Feature(46),
        ],
        47 => &[Feature(46)],
        49 => &[Feature(51), Feature(48), Feature(47), Feature(46)],
        50 => &[Feature(49), Feature(51), Feature(48), Feature(47), Feature(46)],
        51 => &[Feature(48), Feature(47), Feature(46)],
        _ => &[],
    }
}

impl Feature {
    /// The row of the table that this handle stands for.
    pub closed spec fn index(self) -> nat {
        self.0 as nat
    }

    /// The handle stands for a row that the table has.
    pub open spec fn is_valid(self) -> bool {
        self.index() < feature_table().len()
    }

    /// Two handles are equal exactly when they stand for the same row.
    pub proof fn lemma_equal_by_index(self, other: Self)
        ensures
            (self == other) <==> self.index() == other.index(),
    {
    }

    #[verifier::type_invariant]
    spec fn valid_handle(self) -> bool {
        self.is_valid()
    }

    /// The row that this handle stands for.
    pub open spec fn entry(self) -> FeatureEntry
        recommends
            self.is_valid(),
    {
        feature_table()[self.index() as int]
    }

    /// The handle on row `i`.
    pub(crate) fn at(i: usize) -> (f: Self)
        requires
            i < feature_table().len(),
        ensures
            f.index() == i,
            f.is_valid(),
    {
        Feature(i)
    }

    /// The row, as a machine integer.
    pub(crate) fn position(&self) -> (i: usize)
        ensures
            i == self.index(),
            self.is_valid(),
    {
        proof {
            use_type_invariant(self);
        }
        self.0
    }

    /// Look up a feature.
    ///
    /// The table is scanned in order, and the first row of `architecture` whose
    /// name is exactly `feature` is the one found.
    pub fn new(architecture: Architecture, feature: &str) -> (found: Result<Self, UnknownFeature>)
        ensures
            found is Ok <==> is_known(architecture, feature@),
            found matches Ok(f) ==> f.is_valid() && is_first_match(
                f.index() as int,
                architecture,
                feature@,
            ),
            match found {
                Ok(f) => lookup(architecture, feature@) == Some(f.index()),
                Err(_) => lookup(architecture, feature@) is None,
            },
    {
        let mut i: usize = 0;
        while i < FEATURE_COUNT
            invariant
                i <= FEATURE_COUNT,
                forall|j: int| 0 <= j < i ==> !entry_matches(j, architecture, feature@),
            decreases FEATURE_COUNT - i,
        {
            if architecture == architecture_at(i) && str_eq(feature, name_at(i)) {
                proof {
                    assert(entry_matches(i as int, architecture, feature@));
                    lemma_first_match_is_lookup(i as int, architecture, feature@);
                }
                return Ok(Feature(i));
            }
            i += 1;
        }
        Err(UnknownFeature)
    }

    /// Get the name of the feature.
    pub fn name(&self) -> (s: &'static str)
        ensures
            self.is_valid(),
            s@ == self.entry().name,
    {
        proof {
            use_type_invariant(self);
        }
        name_at(self.0)
    }

    /// Get the architecture this feature is for.
    pub fn architecture(&self) -> (a: Architecture)
        ensures
            self.is_valid(),
            a == self.entry().architecture,
    {
        proof {
            use_type_invariant(self);
        }
        architecture_at(self.0)
    }

    /// Get a human-readable description of the feature.
    pub fn description(&self) -> (s: &'static str)
        ensures
            self.is_valid(),
            s@ == self.entry().description,
    {
        proof {
            use_type_invariant(self);
        }
        description_at(self.0)
    }

    /// Return all features which are implied by the existence of this feature.
    ///
    /// For example, "avx2" implies the existence of "avx" on x86 architectures.
    pub fn implies(&self) -> (list: &'static [Feature])
        ensures
            self.is_valid(),
            list@.len() == self.entry().implies.len(),
            forall|k: int|
                0 <= k < list@.len() ==> (#[trigger] list@[k]).index() == self.entry().implies[k],
            forall|k: int| 0 <= k < list@.len() ==> (#[trigger] list@[k]).is_valid(),
    {
        proof {
            use_type_invariant(self);
        }
        implied_features(self.0)
    }
}

} // verus!

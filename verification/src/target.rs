//! Targets: an architecture and the features enabled on it.

use crate::architecture::Architecture;
use crate::feature::{is_known, lookup, Feature};
use crate::table::{entry_implies, feature_table, FEATURE_COUNT};
use vstd::pervasive::unreached;
use vstd::prelude::*;

verus! {

/// A target as contracts see it: its architecture and the rows enabled on it.
pub struct TargetView {
    /// The target's architecture.
    pub architecture: Architecture,
    /// The rows of the feature table that are enabled.
    pub enabled: Set<nat>,
}

impl TargetView {
    /// The target of `architecture` with nothing enabled.
    pub open spec fn new(architecture: Architecture) -> TargetView {
        TargetView { architecture, enabled: Set::empty() }
    }

    /// This target with row `f` enabled.
    pub open spec fn with_feature(self, f: nat) -> TargetView {
        TargetView { architecture: self.architecture, enabled: self.enabled.insert(f) }
    }

    /// This target with row `f` disabled.
    pub open spec fn without_feature(self, f: nat) -> TargetView {
        TargetView { architecture: self.architecture, enabled: self.enabled.remove(f) }
    }

    /// Row `f` is enabled, or an enabled row lists it among the rows it implies.
    ///
    /// Implication is followed one step: what an implied row implies in turn
    /// counts only if the enabled row lists it too. Every element of a row's list
    /// counts, not only the first.
    pub open spec fn supports(self, f: nat) -> bool {
        self.enabled.contains(f) || exists|e: nat|
            self.enabled.contains(e) && #[trigger] entry_implies(e, f)
    }

    /// Every enabled row is a row of the table and belongs to the target's
    /// architecture.
    pub open spec fn wf(self) -> bool {
        forall|i: nat| #[trigger]
            self.enabled.contains(i) ==> {
                &&& i < feature_table().len()
                &&& feature_table()[i as int].architecture == self.architecture
            }
    }
}

/// A target architecture with optional features.
#[derive(Copy, Clone, PartialEq, Eq)]
pub struct Target {
    architecture: Architecture,
    features: [bool; FEATURE_COUNT],
}

impl View for Target {
    type V = TargetView;

    closed spec fn view(&self) -> TargetView {
        TargetView {
            architecture: self.architecture,
            enabled: Set::new(|i: nat| i < FEATURE_COUNT && self.features[i as int]),
        }
    }
}

impl Target {
    #[verifier::type_invariant]
    spec fn well_formed(self) -> bool {
        self@.wf()
    }

    /// Two targets are equal exactly when they have the same architecture and the
    /// same rows enabled.
    pub proof fn lemma_equal_by_view(self, other: Self)
        ensures
            (self == other) <==> self@ == other@,
    {
        if self@ == other@ {
            assert forall|i: int| 0 <= i < FEATURE_COUNT implies self.features[i]
                == other.features[i] by {
                assert(self@.enabled.contains(i as nat) == other@.enabled.contains(i as nat));
            }
            assert(self.features =~= other.features);
        }
    }

    /// Every flag that is set stands for a row of the target's architecture.
    proof fn lemma_enabled_rows(self)
        requires
            self@.wf(),
        ensures
            forall|i: int|
                0 <= i < FEATURE_COUNT && #[trigger] self.features[i]
                    ==> feature_table()[i].architecture == self.architecture,
    {
        assert forall|i: int|
            0 <= i < FEATURE_COUNT && #[trigger] self.features[i]
            implies feature_table()[i].architecture == self.architecture
        by {
            assert(self@.enabled.contains(i as nat));
        }
    }

    /// Create a target with no specified features.
    pub fn new(architecture: Architecture) -> (target: Self)
        ensures
            target@ == TargetView::new(architecture),
            target@.wf(),
    {
        let target = Self { architecture, features: [false; FEATURE_COUNT] };
        assert(target@.enabled =~= Set::empty());
        target
    }

    /// Returns the target architecture.
    pub fn architecture(&self) -> (a: Architecture)
        ensures
            a == self@.architecture,
    {
        self.architecture
    }

    /// Returns whether the target supports the specified feature.
    ///
    /// A feature is supported when it is enabled on the target, or when some
    /// enabled feature lists it, anywhere in its list of implied features.
    pub fn supports_feature(&self, feature: Feature) -> (supported: bool)
        ensures
            supported == self@.supports(feature.index()),
    {
        let wanted = feature.position();
        if self.features[wanted] {
            return true;
        }
        let mut i: usize = 0;
        while i < FEATURE_COUNT
            invariant
                i <= FEATURE_COUNT,
                wanted == feature.index(),
                !self@.enabled.contains(feature.index()),
                forall|e: nat|
                    e < i && self@.enabled.contains(e) ==> !#[trigger] entry_implies(
                        e,
                        feature.index(),
                    ),
            decreases FEATURE_COUNT - i,
        {
            if self.features[i] {
                let implies = Feature::at(i).implies();
                let mut j: usize = 0;
                while j < implies.len()
                    invariant
                        j <= implies@.len(),
                        wanted == feature.index(),
                        i < FEATURE_COUNT,
                        self@.enabled.contains(i as nat),
                        implies@.len() == feature_table()[i as int].implies.len(),
                        forall|k: int|
                            0 <= k < implies@.len() ==> (#[trigger] implies@[k]).index()
                                == feature_table()[i as int].implies[k],
                        forall|k: int|
                            0 <= k < j ==> feature_table()[i as int].implies[k] != feature.index(),
                    decreases implies@.len() - j,
                {
                    let candidate = implies[j].position();
                    assert(implies@[j as int].index() == feature_table()[i as int].implies[j as int]);
                    if wanted == candidate {
                        assert(entry_implies(i as nat, feature.index()));
                        return true;
                    }
                    j += 1;
                }
                assert(!entry_implies(i as nat, feature.index()));
            }
            i += 1;
        }
        false
    }

    /// Returns whether the target supports the feature of that name.
    ///
    /// The name must be one that the target's architecture has. Verified callers
    /// are held to that; for any other caller a name that is not known panics.
    pub fn supports_feature_str(&self, feature: &str) -> (supported: bool)
        requires
            is_known(self@.architecture, feature@),
        ensures
            supported == self@.supports(lookup(self@.architecture, feature@).unwrap()),
    {
        match Feature::new(self.architecture, feature) {
            Ok(feature) => self.supports_feature(feature),
            Err(_) => unreached(),
        }
    }

    /// Add a feature to the target.
    ///
    /// The feature must belong to the target's architecture. Verified callers are
    /// held to that; for any other caller a feature of another architecture
    /// panics.
    pub fn with_feature(self, feature: Feature) -> (target: Self)
        requires
            feature.entry().architecture == self@.architecture,
        ensures
            target@ == self@.with_feature(feature.index()),
            target@.wf(),
    {
        if feature.architecture() != self.architecture {
            return unreached();
        }
        let row = feature.position();
        proof {
            use_type_invariant(&self);
            self.lemma_enabled_rows();
        }
        let mut target = self;
        target.features[row] = true;
        assert(target@.enabled =~= self@.enabled.insert(feature.index()));
        target
    }

    /// Add the feature of that name to the target.
    ///
    /// The name must be one that the target's architecture has. Verified callers
    /// are held to that; for any other caller a name that is not known panics.
    pub fn with_feature_str(self, feature: &str) -> (target: Self)
        requires
            is_known(self@.architecture, feature@),
        ensures
            target@ == self@.with_feature(lookup(self@.architecture, feature@).unwrap()),
            target@.wf(),
    {
        match Feature::new(self.architecture, feature) {
            Ok(feature) => self.with_feature(feature),
            Err(_) => unreached(),
        }
    }

    /// Remove a feature from the target.
    ///
    /// The feature must belong to the target's architecture. Verified callers are
    /// held to that; for any other caller a feature of another architecture
    /// panics.
    pub fn without_feature(self, feature: Feature) -> (target: Self)
        requires
            feature.entry().architecture == self@.architecture,
        ensures
            target@ == self@.without_feature(feature.index()),
            target@.wf(),
    {
        if feature.architecture() != self.architecture {
            return unreached();
        }
        let row = feature.position();
        proof {
            use_type_invariant(&self);
            self.lemma_enabled_rows();
        }
        let mut target = self;
        target.features[row] = false;
        assert(target@.enabled =~= self@.enabled.remove(feature.index()));
        target
    }

    /// Remove the feature of that name from the target.
    ///
    /// The name must be one that the target's architecture has. Verified callers
    /// are held to that; for any other caller a name that is not known panics.
    pub fn without_feature_str(self, feature: &str) -> (target: Self)
        requires
            is_known(self@.architecture, feature@),
        ensures
            target@ == self@.without_feature(lookup(self@.architecture, feature@).unwrap()),
            target@.wf(),
    {
        match Feature::new(self.architecture, feature) {
            Ok(feature) => self.without_feature(feature),
            Err(_) => unreached(),
        }
    }
}

} // verus!

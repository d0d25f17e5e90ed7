//! Strictness levels for VNU properties.
//!
//! Every property attached to a VNU is classified into exactly one of three
//! strictness levels, which decides how the Constraint Engine treats a
//! proposed modification of that property.
//!
//! The levels form a total order where "greater" means "more strict":
//! `Invariant > Constrained > Accidental`. A subtype may narrow a parent
//! constraint (increase strictness) but never widen it: a proposed level is
//! rejected when it compares less than the parent's.
use std::cmp::Ordering;
use crate::epistemic::EpistemicTier;
use vstd::prelude::*;
use vstd::std_specs::cmp::PartialOrdSpec;

verus! {

/// The mutability classification of a single VNU property.
///
/// Variants are declared in ascending strictness, so the derived `Ord` and the
/// hand-written `PartialOrd` below both follow
/// `Accidental < Constrained < Invariant`.
#[derive(Debug, Clone, Copy, PartialEq, Eq, Structural, Ord, Hash)]
pub enum StrictnessLevel {
    /// Exploratory property (Cluster Three), modified continuously; the
    /// Constraint Engine records but does not reject its modifications.
    Accidental,
    /// Bounded property (Cluster Two): may change, but only within declared
    /// minimum and maximum bounds.
    Constrained,
    /// Axiomatic bedrock (Cluster One): never modified during normal operation.
    Invariant,
}

impl StrictnessLevel {
    /// Strictness rank: `Accidental` 0, `Constrained` 1, `Invariant` 2.
    pub open spec fn rank(self) -> int {
        match self {
            StrictnessLevel::Accidental => 0,
            StrictnessLevel::Constrained => 1,
            StrictnessLevel::Invariant => 2,
        }
    }

    /// Whether a property at this level may have its value modified at all.
    pub open spec fn mutable_level(self) -> bool {
        self != StrictnessLevel::Invariant
    }

    /// The three-way comparison of two levels by strictness.
    pub open spec fn compare_levels(self, other: StrictnessLevel) -> Ordering {
        if self.rank() < other.rank() {
            Ordering::Less
        } else if self.rank() == other.rank() {
            Ordering::Equal
        } else {
            Ordering::Greater
        }
    }

    /// Executable strictness rank, used by `partial_cmp`.
    fn level(self) -> (r: u8)
        ensures
            r == self.rank(),
    {
        match self {
            StrictnessLevel::Accidental => 0,
            StrictnessLevel::Constrained => 1,
            StrictnessLevel::Invariant => 2,
        }
    }

    /// Returns `true` if a property at this level may have its value modified
    /// under any circumstances: `Invariant` gives `false`, `Constrained`
    /// (within bounds) and `Accidental` (without bounds) give `true`.
    #[must_use]
    pub fn is_mutable(self) -> (r: bool)
        ensures
            r == self.mutable_level(),
    {
        self != StrictnessLevel::Invariant
    }
}

impl PartialOrd for StrictnessLevel {
    fn partial_cmp(&self, other: &StrictnessLevel) -> (r: Option<Ordering>) {
        let a = self.level();
        let b = other.level();
        if a < b {
            Some(Ordering::Less)
        } else if a == b {
            Some(Ordering::Equal)
        } else {
            Some(Ordering::Greater)
        }
    }
}

impl vstd::std_specs::cmp::PartialOrdSpecImpl for StrictnessLevel {
    open spec fn obeys_partial_cmp_spec() -> bool {
        true
    }

    open spec fn partial_cmp_spec(&self, other: &StrictnessLevel) -> Option<Ordering> {
        Some(self.compare_levels(*other))
    }
}

/// The levels are totally ordered by strictness: every two levels are
/// comparable, a level compares equal only to itself, the order is
/// antisymmetric and transitive, and `Accidental < Constrained < Invariant`.
pub proof fn lemma_strictness_order(a: StrictnessLevel, b: StrictnessLevel, c: StrictnessLevel)
    ensures
        a.partial_cmp_spec(&b) is Some,
        a.partial_cmp_spec(&b) == Some(Ordering::Equal) <==> a == b,
        a.partial_cmp_spec(&b) == Some(Ordering::Less) <==> b.partial_cmp_spec(&a) == Some(
            Ordering::Greater,
        ),
        a.partial_cmp_spec(&b) == Some(Ordering::Less) && b.partial_cmp_spec(&c) == Some(
            Ordering::Less,
        ) ==> a.partial_cmp_spec(&c) == Some(Ordering::Less),
        StrictnessLevel::Accidental.partial_cmp_spec(&StrictnessLevel::Constrained) == Some(
            Ordering::Less,
        ),
        StrictnessLevel::Constrained.partial_cmp_spec(&StrictnessLevel::Invariant) == Some(
            Ordering::Less,
        ),
{
}

/// Exactly the strictest level is immutable: a level is immutable if and only
/// if no level is stricter than it. So a narrowing from an immutable parent
/// stays immutable, and a mutable child never sits above an immutable parent.
pub proof fn lemma_immutable_is_strictest(s: StrictnessLevel, parent: StrictnessLevel)
    ensures
        !s.mutable_level() <==> (forall|t: StrictnessLevel| t.partial_cmp_spec(&s) != Some(Ordering::Greater)),
        !parent.mutable_level() && s.partial_cmp_spec(&parent) != Some(Ordering::Less)
            ==> !s.mutable_level(),
{
    if s.mutable_level() {
        let top = StrictnessLevel::Invariant;
        assert(top.partial_cmp_spec(&s) == Some(Ordering::Greater));
    }
}

/// The dominant strictness of each epistemic cluster: Cluster One
/// (`Fundamental`) is dominated by `Invariant` properties, Cluster Two
/// (`Advanced`) by `Constrained` ones, and Cluster Three (`Creative`) by
/// `Accidental` ones.
pub open spec fn dominant_strictness(t: EpistemicTier) -> StrictnessLevel {
    match t {
        EpistemicTier::Fundamental => StrictnessLevel::Invariant,
        EpistemicTier::Advanced => StrictnessLevel::Constrained,
        EpistemicTier::Creative => StrictnessLevel::Accidental,
    }
}

/// The cluster table is consistent: a tier is mutable exactly when its
/// dominant strictness level is, and the correspondence keeps the order, so a
/// more foundational tier is dominated by a stricter level.
pub proof fn lemma_cluster_correspondence(t: EpistemicTier, u: EpistemicTier)
    ensures
        t.mutable_tier() == dominant_strictness(t).mutable_level(),
        t.partial_cmp_spec(&u) == dominant_strictness(t).partial_cmp_spec(&dominant_strictness(u)),
{
}

} // verus!

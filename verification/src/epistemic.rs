//! Epistemic tier classification for Vocabulary-Network-Units (VNUs).
//!
//! Every VNU is assigned to exactly one of three epistemic tiers. The tier
//! decides whether the VNU may be modified, which tier a modification must
//! reduce to (Correspondence Principle), and whether the Bifurcation Engine
//! may analyse it.
//!
//! The tiers form a total order where "greater" means "more foundational":
//! `Fundamental > Advanced > Creative`.
use std::cmp::Ordering;
use vstd::prelude::*;
use vstd::std_specs::cmp::PartialOrdSpec;

verus! {

/// The epistemic tier of a Vocabulary-Network-Unit.
///
/// Variants are declared in ascending foundational status, so the derived
/// `Ord` and the hand-written `PartialOrd` below both follow
/// `Creative < Advanced < Fundamental`.
#[derive(Debug, Clone, Copy, PartialEq, Eq, Structural, Ord, Hash)]
pub enum EpistemicTier {
    /// Cluster Three: Creative Intelligence. Hypotheses, speculative models
    /// and the system's own history; modified continuously. The only tier
    /// eligible for bifurcation analysis.
    Creative,
    /// Cluster Two: Advanced Science. Modified within constrained bounds and
    /// governed by the Correspondence Principle: it must reduce to Cluster One.
    Advanced,
    /// Cluster One: Basic Fundamental Immutable Facts. The axiomatic bedrock,
    /// never modified during normal operation.
    Fundamental,
}

impl EpistemicTier {
    /// Foundational rank of the tier: `Creative` 0, `Advanced` 1, `Fundamental` 2.
    pub open spec fn rank(self) -> int {
        match self {
            EpistemicTier::Creative => 0,
            EpistemicTier::Advanced => 1,
            EpistemicTier::Fundamental => 2,
        }
    }

    /// Whether VNUs at this tier may be modified during normal operation.
    pub open spec fn mutable_tier(self) -> bool {
        self != EpistemicTier::Fundamental
    }

    /// Whether the Bifurcation Engine may analyse this tier.
    pub open spec fn bifurcation_tier(self) -> bool {
        self == EpistemicTier::Creative
    }

    /// The tier that a modification of this tier must reduce to.
    pub open spec fn reduction_target(self) -> Option<EpistemicTier> {
        match self {
            EpistemicTier::Fundamental => None,
            EpistemicTier::Advanced => Some(EpistemicTier::Fundamental),
            EpistemicTier::Creative => Some(EpistemicTier::Advanced),
        }
    }

    /// The three-way comparison of two tiers by foundational rank.
    pub open spec fn compare_tiers(self, other: EpistemicTier) -> Ordering {
        if self.rank() < other.rank() {
            Ordering::Less
        } else if self.rank() == other.rank() {
            Ordering::Equal
        } else {
            Ordering::Greater
        }
    }

    /// Executable foundational rank, used by `partial_cmp`.
    fn level(self) -> (r: u8)
        ensures
            r == self.rank(),
    {
        match self {
            EpistemicTier::Creative => 0,
            EpistemicTier::Advanced => 1,
            EpistemicTier::Fundamental => 2,
        }
    }

    /// Returns `true` if VNUs at this tier may be modified during normal
    /// operation: `Fundamental` gives `false`, `Advanced` and `Creative` give
    /// `true`.
    #[must_use]
    pub fn is_mutable(self) -> (r: bool)
        ensures
            r == self.mutable_tier(),
    {
        self != EpistemicTier::Fundamental
    }

    /// Returns `true` if this tier is eligible for bifurcation analysis, which
    /// holds of `Creative` alone.
    #[must_use]
    pub fn allows_bifurcation(self) -> (r: bool)
        ensures
            r == self.bifurcation_tier(),
    {
        self == EpistemicTier::Creative
    }

    /// Returns the tier that modifications to this tier must reduce to, per the
    /// Correspondence Principle: `Advanced` reduces to `Fundamental`, `Creative`
    /// to `Advanced`, and `Fundamental` to nothing.
    #[must_use]
    pub fn must_reduce_to(self) -> (r: Option<EpistemicTier>)
        ensures
            r == self.reduction_target(),
    {
        match self {
            EpistemicTier::Fundamental => None,
            EpistemicTier::Advanced => Some(EpistemicTier::Fundamental),
            EpistemicTier::Creative => Some(EpistemicTier::Advanced),
        }
    }
}

impl PartialOrd for EpistemicTier {
    fn partial_cmp(&self, other: &EpistemicTier) -> (r: Option<Ordering>) {
        let a = self.level();
        let b = other.level();
        if a < b {
            Some(Ordering::Less)
        } else if a == b {
            Some(Ordering::Equal)
        } else {
            Some(Ordering::Greater)
        }
    }
}

impl vstd::std_specs::cmp::PartialOrdSpecImpl for EpistemicTier {
    open spec fn obeys_partial_cmp_spec() -> bool {
        true
    }

    open spec fn partial_cmp_spec(&self, other: &EpistemicTier) -> Option<Ordering> {
        Some(self.compare_tiers(*other))
    }
}

/// The tiers are totally ordered by foundational status: every two tiers are
/// comparable, a tier compares equal only to itself, the order is
/// antisymmetric and transitive, and `Creative < Advanced < Fundamental`, so
/// `Fundamental` is the greatest tier and `Creative` the least.
pub proof fn lemma_tier_order(a: EpistemicTier, b: EpistemicTier, c: EpistemicTier)
    ensures
        a.partial_cmp_spec(&b) is Some,
        a.partial_cmp_spec(&b) == Some(Ordering::Equal) <==> a == b,
        a.partial_cmp_spec(&b) == Some(Ordering::Less) <==> b.partial_cmp_spec(&a) == Some(
            Ordering::Greater,
        ),
        a.partial_cmp_spec(&b) == Some(Ordering::Less) && b.partial_cmp_spec(&c) == Some(
            Ordering::Less,
        ) ==> a.partial_cmp_spec(&c) == Some(Ordering::Less),
        EpistemicTier::Creative.partial_cmp_spec(&EpistemicTier::Advanced) == Some(Ordering::Less),
        EpistemicTier::Advanced.partial_cmp_spec(&EpistemicTier::Fundamental) == Some(
            Ordering::Less,
        ),
        a.partial_cmp_spec(&EpistemicTier::Fundamental) != Some(Ordering::Greater),
        a.partial_cmp_spec(&EpistemicTier::Creative) != Some(Ordering::Less),
{
}

/// The Correspondence Principle points upwards: a tier that must reduce to
/// another reduces to the next more foundational tier. Exactly the immutable
/// tier, `Fundamental`, the greatest one, reduces to nothing; and only the
/// least tier, `Creative`, is eligible for bifurcation, which makes every
/// bifurcation-eligible tier mutable.
pub proof fn lemma_correspondence(t: EpistemicTier)
    ensures
        t.reduction_target() matches Some(u) ==> u.rank() == t.rank() + 1
            && t.partial_cmp_spec(&u) == Some(Ordering::Less),
        t.reduction_target() is None <==> !t.mutable_tier(),
        !t.mutable_tier() <==> (forall|u: EpistemicTier| u.partial_cmp_spec(&t) != Some(Ordering::Greater)),
        t.bifurcation_tier() <==> (forall|u: EpistemicTier| u.partial_cmp_spec(&t) != Some(Ordering::Less)),
        t.bifurcation_tier() ==> t.mutable_tier(),
{
    if t.mutable_tier() {
        let top = EpistemicTier::Fundamental;
        assert(top.partial_cmp_spec(&t) == Some(Ordering::Greater));
    }
    if !t.bifurcation_tier() {
        let bottom = EpistemicTier::Creative;
        assert(bottom.partial_cmp_spec(&t) == Some(Ordering::Less));
    }
}

/// Following the Correspondence Principle from any tier reaches the bedrock
/// tier `Fundamental` in at most two reductions.
pub proof fn lemma_reduction_reaches_bedrock(t: EpistemicTier)
    ensures
        match t.reduction_target() {
            None => t == EpistemicTier::Fundamental,
            Some(u) => match u.reduction_target() {
                None => u == EpistemicTier::Fundamental,
                Some(w) => w == EpistemicTier::Fundamental,
            },
        },
{
}

} // verus!

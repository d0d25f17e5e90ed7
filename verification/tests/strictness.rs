use prexager::strictness::StrictnessLevel;
use prexager::epistemic::EpistemicTier;

#[test]
fn strictness_ordering() {
    assert!(StrictnessLevel::Invariant > StrictnessLevel::Constrained);
    assert!(StrictnessLevel::Constrained > StrictnessLevel::Accidental);
    assert!(StrictnessLevel::Invariant > StrictnessLevel::Accidental);
}

#[test]
fn narrowing_is_permitted() {
    let parent = StrictnessLevel::Constrained;
    let child = StrictnessLevel::Invariant;
    // Narrowing: child >= parent, permitted
    assert!(child >= parent);
}

#[test]
fn widening_is_rejected() {
    let parent = StrictnessLevel::Constrained;
    let child = StrictnessLevel::Accidental;
    // Widening: child < parent, rejected
    assert!(child < parent);
}

#[test]
fn strictness_mutability() {
    assert!(!StrictnessLevel::Invariant.is_mutable());
    assert!(StrictnessLevel::Constrained.is_mutable());
    assert!(StrictnessLevel::Accidental.is_mutable());
}

#[test]
fn strictness_order_is_total_and_consistent_with_ord() {
    let all = [
        StrictnessLevel::Accidental,
        StrictnessLevel::Constrained,
        StrictnessLevel::Invariant,
    ];
    for (i, a) in all.iter().enumerate() {
        for (j, b) in all.iter().enumerate() {
            assert_eq!(a.partial_cmp(b), Some(i.cmp(&j)));
            assert_eq!(a.cmp(b), i.cmp(&j));
            assert_eq!(a == b, i == j);
        }
    }
}

#[test]
fn only_the_strictest_level_is_immutable() {
    let all = [
        StrictnessLevel::Accidental,
        StrictnessLevel::Constrained,
        StrictnessLevel::Invariant,
    ];
    for s in all {
        let strictest = all.iter().all(|t| *t <= s);
        assert_eq!(!s.is_mutable(), strictest);
    }
    assert_eq!(all.iter().max(), Some(&StrictnessLevel::Invariant));
}

#[test]
fn cluster_table_agrees() {
    let table = [
        (EpistemicTier::Creative, StrictnessLevel::Accidental),
        (EpistemicTier::Advanced, StrictnessLevel::Constrained),
        (EpistemicTier::Fundamental, StrictnessLevel::Invariant),
    ];
    for (t, s) in table {
        assert_eq!(t.is_mutable(), s.is_mutable());
        for (u, r) in table {
            assert_eq!(t.partial_cmp(&u), s.partial_cmp(&r));
        }
    }
}

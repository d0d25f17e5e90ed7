use prexager::epistemic::EpistemicTier;

#[test]
fn tier_ordering() {
    assert!(EpistemicTier::Fundamental > EpistemicTier::Advanced);
    assert!(EpistemicTier::Advanced > EpistemicTier::Creative);
    assert!(EpistemicTier::Fundamental > EpistemicTier::Creative);
}

// The documented rule: Fundamental is the immutable bedrock, Advanced and
// Creative may be modified.
#[test]
fn epistemic_mutability() {
    assert!(!EpistemicTier::Fundamental.is_mutable());
    assert!(EpistemicTier::Advanced.is_mutable());
    assert!(EpistemicTier::Creative.is_mutable());
}

// The documented rule: the Bifurcation Engine is active only for Creative.
#[test]
fn bifurcation_eligibility() {
    assert!(!EpistemicTier::Fundamental.allows_bifurcation());
    assert!(!EpistemicTier::Advanced.allows_bifurcation());
    assert!(EpistemicTier::Creative.allows_bifurcation());
}

#[test]
fn correspondence_principle() {
    assert_eq!(EpistemicTier::Fundamental.must_reduce_to(), None);
    assert_eq!(
        EpistemicTier::Advanced.must_reduce_to(),
        Some(EpistemicTier::Fundamental)
    );
    assert_eq!(
        EpistemicTier::Creative.must_reduce_to(),
        Some(EpistemicTier::Advanced)
    );
}

#[test]
fn tier_order_is_total_and_consistent_with_ord() {
    let all = [
        EpistemicTier::Creative,
        EpistemicTier::Advanced,
        EpistemicTier::Fundamental,
    ];
    for (i, a) in all.iter().enumerate() {
        for (j, b) in all.iter().enumerate() {
            assert_eq!(a.partial_cmp(b), Some(i.cmp(&j)));
            assert_eq!(a.cmp(b), i.cmp(&j));
        }
    }
    let mut sorted = vec![
        EpistemicTier::Fundamental,
        EpistemicTier::Creative,
        EpistemicTier::Advanced,
    ];
    sorted.sort();
    assert_eq!(sorted, all.to_vec());
}

#[test]
fn reduction_moves_to_a_more_foundational_tier() {
    for t in [
        EpistemicTier::Creative,
        EpistemicTier::Advanced,
        EpistemicTier::Fundamental,
    ] {
        match t.must_reduce_to() {
            Some(u) => assert!(u > t),
            None => assert!(!t.is_mutable()),
        }
        if t.allows_bifurcation() {
            assert!(t.is_mutable());
        }
    }
}

#[test]
fn reduction_reaches_bedrock_in_two_steps() {
    let first = EpistemicTier::Creative.must_reduce_to().unwrap();
    let second = first.must_reduce_to().unwrap();
    assert_eq!(second, EpistemicTier::Fundamental);
    assert_eq!(second.must_reduce_to(), None);
}

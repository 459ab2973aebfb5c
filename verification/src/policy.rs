//! The expiration policy: a pure state machine over a post's view counter
//! and validity flag.
//!
//! A post is eligible while its view counter is below the configured
//! threshold.  One view increments the counter; validity is cleared in the
//! same step that carries the counter to the threshold, and a post that
//! has become invalid never becomes valid again.

use vstd::prelude::*;

verus! {

/// Whether a post may still be delivered.
#[derive(Debug, Clone, Copy, PartialEq, Eq, Structural)]
pub enum PostEligibility {
    Eligible,
    Expired,
}

/// `Eligible` exactly when the view count is below the threshold.
pub open spec fn spec_classify(view_count: int, threshold: int) -> PostEligibility {
    if view_count < threshold {
        PostEligibility::Eligible
    } else {
        PostEligibility::Expired
    }
}

/// Classifies a view count against the expiration threshold.  Pure and
/// total.
pub fn classify(view_count: i32, threshold: i32) -> (r: PostEligibility)
    ensures
        r == spec_classify(view_count as int, threshold as int),
{
    if view_count < threshold {
        PostEligibility::Eligible
    } else {
        PostEligibility::Expired
    }
}

/// The policy-relevant part of a stored post: its counter and validity.
#[verifier::ext_equal]
pub struct PostState {
    pub count: int,
    pub valid: bool,
}

/// A fresh post: zero views, valid.
pub open spec fn initial_state() -> PostState {
    PostState { count: 0, valid: true }
}

/// One view: the counter moves up, and validity survives exactly when the
/// new counter is still below the threshold.
pub open spec fn step_view(s: PostState, threshold: int) -> PostState {
    PostState { count: s.count + 1, valid: s.valid && s.count + 1 < threshold }
}

/// The state of a fresh post after `k` views.
pub open spec fn after_views(threshold: int, k: nat) -> PostState
    decreases k,
{
    if k == 0 {
        initial_state()
    } else {
        step_view(after_views(threshold, (k - 1) as nat), threshold)
    }
}

/// Law: for every positive threshold and every number of views, a post's
/// validity holds exactly while its counter is below the threshold.  So
/// validity becomes false exactly once — at the view that carries the
/// counter to the threshold — and never reverts.
pub proof fn lemma_validity_tracks_threshold(threshold: int, k: nat)
    requires
        threshold >= 1,
    ensures
        after_views(threshold, k).count == k,
        after_views(threshold, k).valid <==> k < threshold,
    decreases k,
{
    if k > 0 {
        lemma_validity_tracks_threshold(threshold, (k - 1) as nat);
    }
}

/// Law: validity flips on the step from `k` views to `k + 1` views exactly
/// when that step carries the counter to the threshold.
pub proof fn lemma_validity_flips_once(threshold: int, k: nat)
    requires
        threshold >= 1,
    ensures
        (after_views(threshold, k).valid && !after_views(threshold, (k + 1) as nat).valid) <==> k
            + 1 == threshold,
{
    lemma_validity_tracks_threshold(threshold, k);
    lemma_validity_tracks_threshold(threshold, (k + 1) as nat);
}

/// Law: once invalid, a post stays invalid through every later view.
pub proof fn lemma_validity_never_reverts(threshold: int, k1: nat, k2: nat)
    requires
        threshold >= 1,
        k1 <= k2,
        !after_views(threshold, k1).valid,
    ensures
        !after_views(threshold, k2).valid,
{
    lemma_validity_tracks_threshold(threshold, k1);
    lemma_validity_tracks_threshold(threshold, k2);
}

} // verus!

use vstd::prelude::*;

use crate::state::Backend;

verus! {

/// Adaptive score of a candidate: connection count dominates, latency breaks
/// ties among equally-loaded backends. Lower is better.
pub open spec fn adaptive_score(b: Backend) -> int {
    b.active_conn * 1000 + b.avg_latency_ms
}

/// The stable minimum by adaptive score: candidate `i` scores no worse than
/// anyone, and every earlier candidate scores strictly worse.
pub open spec fn is_adaptive_choice(s: Seq<Backend>, i: int) -> bool {
    &&& 0 <= i < s.len()
    &&& forall|j: int| 0 <= j < s.len() ==> adaptive_score(s[i]) <= adaptive_score(#[trigger] s[j])
    &&& forall|j: int| 0 <= j < i ==> adaptive_score(#[trigger] s[j]) > adaptive_score(s[i])
}

/// What one adaptive selection returns: `None` exactly on an empty candidate
/// list; otherwise the first index with minimal score.
pub open spec fn alc_selects(s: Seq<Backend>, r: Option<usize>) -> bool {
    if s.len() == 0 {
        r is None
    } else {
        r matches Some(i) && is_adaptive_choice(s, i as int)
    }
}

/// Routes by the composite score `active_conn * 1000 + avg_latency_ms`, so a
/// fast but congested backend does not monopolize traffic, while consistently
/// slow backends are penalized among equally-loaded ones.
pub struct AdaptiveLeastConn;

impl AdaptiveLeastConn {
    pub fn new() -> (r: Self) {
        AdaptiveLeastConn
    }

    /// Returns the lowest index whose score is minimal among all candidates;
    /// `None` only when the candidate list is empty.
    pub fn select_backend(&self, eligible_candidates: &Vec<Backend>) -> (r: Option<usize>)
        ensures
            alc_selects(eligible_candidates@, r),
            r is None <==> eligible_candidates@.len() == 0,
            r matches Some(i) ==> i < eligible_candidates@.len(),
    {
        if eligible_candidates.len() == 0 {
            return None;
        }
        let mut best: usize = 0;
        let mut best_score = Self::score_of(&eligible_candidates[0]);
        let mut k: usize = 1;
        while k < eligible_candidates.len()
            invariant
                0 < k <= eligible_candidates@.len(),
                best < k,
                best_score as int == adaptive_score(eligible_candidates@[best as int]),
                forall|j: int|
                    0 <= j < k ==> adaptive_score(eligible_candidates@[best as int])
                        <= adaptive_score(#[trigger] eligible_candidates@[j]),
                forall|j: int|
                    0 <= j < best ==> adaptive_score(#[trigger] eligible_candidates@[j])
                        > adaptive_score(eligible_candidates@[best as int]),
            decreases eligible_candidates@.len() - k,
        {
            let sc = Self::score_of(&eligible_candidates[k]);
            if sc < best_score {
                best = k;
                best_score = sc;
            }
            k = k + 1;
        }
        Some(best)
    }

    /// The score, computed wide enough that it cannot overflow.
    fn score_of(b: &Backend) -> (r: u128)
        ensures
            r as int == adaptive_score(*b),
    {
        (b.active_conn as u128) * 1000 + (b.avg_latency_ms as u128)
    }
}

} // verus!

use vstd::prelude::*;

use crate::state::Backend;

verus! {

/// The stable minimum: candidate `i` has the smallest `active_conn`, and
/// every earlier candidate is strictly busier, so ties go to the lowest
/// index.
pub open spec fn is_least_conn_choice(s: Seq<Backend>, i: int) -> bool {
    &&& 0 <= i < s.len()
    &&& forall|j: int| 0 <= j < s.len() ==> s[i].active_conn <= #[trigger] s[j].active_conn
    &&& forall|j: int| 0 <= j < i ==> #[trigger] s[j].active_conn > s[i].active_conn
}

/// What one least-connections selection returns: `None` exactly on an empty
/// candidate list; otherwise the first index with minimal `active_conn`.
pub open spec fn lc_selects(s: Seq<Backend>, r: Option<usize>) -> bool {
    if s.len() == 0 {
        r is None
    } else {
        r matches Some(i) && is_least_conn_choice(s, i as int)
    }
}

/// Routes to the candidate with the fewest active connections; ties broken
/// by first occurrence.
pub struct LeastConn;

impl LeastConn {
    pub fn new() -> (r: Self) {
        LeastConn
    }

    /// Returns the lowest index whose `active_conn` is minimal among all
    /// candidates; `None` only when the candidate list is empty.
    pub fn select_backend(&self, eligible_candidates: &Vec<Backend>) -> (r: Option<usize>)
        ensures
            lc_selects(eligible_candidates@, r),
            r is None <==> eligible_candidates@.len() == 0,
            r matches Some(i) ==> i < eligible_candidates@.len(),
    {
        if eligible_candidates.len() == 0 {
            return None;
        }
        let mut best: usize = 0;
        let mut k: usize = 1;
        while k < eligible_candidates.len()
            invariant
                0 < k <= eligible_candidates@.len(),
                best < k,
                forall|j: int|
                    0 <= j < k ==> eligible_candidates@[best as int].active_conn
                        <= #[trigger] eligible_candidates@[j].active_conn,
                forall|j: int|
                    0 <= j < best ==> #[trigger] eligible_candidates@[j].active_conn
                        > eligible_candidates@[best as int].active_conn,
            decreases eligible_candidates@.len() - k,
        {
            if eligible_candidates[k].active_conn < eligible_candidates[best].active_conn {
                best = k;
            }
            k = k + 1;
        }
        Some(best)
    }
}

} // verus!

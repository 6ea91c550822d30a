use vstd::prelude::*;

use crate::algorithms::round_robin::rr_index;
use crate::algorithms::round_robin::rr_next;
use crate::state::Backend;

verus! {

/// Sum of the current weights of the first `i` candidates.
pub open spec fn prefix_weight(s: Seq<Backend>, i: int) -> int
    decreases i,
{
    if i <= 0 {
        0
    } else {
        prefix_weight(s, i - 1) + s[i - 1].current_weight
    }
}

/// Sum of the current weights of all candidates.
pub open spec fn total_weight(s: Seq<Backend>) -> int {
    prefix_weight(s, s.len() as int)
}

/// The cumulative-weight walk's winner for a cursor offset `c` in
/// `[0, total_weight(s))`: the owner of the weight slice that contains `c`.
/// Candidates with weight 0 own an empty slice and are never chosen.
pub open spec fn is_wrr_choice(s: Seq<Backend>, c: int, i: int) -> bool {
    &&& 0 <= i < s.len()
    &&& s[i].current_weight > 0
    &&& prefix_weight(s, i) <= c < prefix_weight(s, i + 1)
}

/// What one weighted selection does: `None` exactly on an empty candidate
/// list. With all weights 0 it behaves identically to `RoundRobin`
/// (`rr_index`, `rr_next`); otherwise it picks the owner of the weight slice
/// that the cursor maps into, and the cursor advances by one.
pub open spec fn wrr_selects(
    pre: WeightedRoundRobin,
    post: WeightedRoundRobin,
    s: Seq<Backend>,
    r: Option<usize>,
) -> bool {
    if s.len() == 0 {
        r is None && post == pre
    } else {
        &&& post.cursor == rr_next(pre.cursor)
        &&& if total_weight(s) == 0 {
            r matches Some(i) && i as nat == rr_index(pre.cursor, s.len())
        } else {
            r matches Some(i) && is_wrr_choice(s, (pre.cursor as int) % total_weight(s), i as int)
        }
    }
}

/// Classic cumulative-weight selection: a shared monotonic cursor is mapped
/// into `[0, total_weight)` and the walk over the candidates' weight slices
/// names the winner, so long-run selection frequency is proportional to each
/// candidate's current weight.
pub struct WeightedRoundRobin {
    pub cursor: u64,
}

impl WeightedRoundRobin {
    pub fn new() -> (r: Self)
        ensures
            r.cursor == 0,
    {
        WeightedRoundRobin { cursor: 0 }
    }

    /// Picks the candidate owning the cursor's weight slice; falls back to
    /// plain round-robin when every weight is 0. Returns `None` only when
    /// the candidate list is empty.
    pub fn select_backend(&mut self, eligible_candidates: &Vec<Backend>) -> (r: Option<usize>)
        ensures
            wrr_selects(*old(self), *final(self), eligible_candidates@, r),
            r is None <==> eligible_candidates@.len() == 0,
            r matches Some(i) ==> i < eligible_candidates@.len(),
    {
        let len = eligible_candidates.len();
        if len == 0 {
            return None;
        }

        let mut total: u128 = 0;
        let mut k: usize = 0;
        while k < len
            invariant
                0 <= k <= len,
                len == eligible_candidates@.len(),
                total as int == prefix_weight(eligible_candidates@, k as int),
                total <= k * 0xffff_ffff_ffff_ffff,
            decreases len - k,
        {
            total = total + (eligible_candidates[k].current_weight as u128);
            k = k + 1;
        }

        let ghost cur0: u64 = self.cursor;

        if total == 0 {
            // Fallback to round-robin if all weights are 0
            let idx = (self.cursor % (len as u64)) as usize;
            self.cursor = if self.cursor == u64::MAX {
                0
            } else {
                self.cursor + 1
            };
            return Some(idx);
        }

        let c: u128 = (self.cursor as u128) % total;
        self.cursor = if self.cursor == u64::MAX {
            0
        } else {
            self.cursor + 1
        };

        let mut remaining = c;
        let mut i: usize = 0;
        while i < len
            invariant
                0 <= i <= len,
                len == eligible_candidates@.len(),
                total as int == total_weight(eligible_candidates@),
                c < total,
                c as int == (cur0 as int) % total_weight(eligible_candidates@),
                remaining as int == c as int - prefix_weight(eligible_candidates@, i as int),
                cur0 == old(self).cursor,
                self.cursor == rr_next(cur0),
            decreases len - i,
        {
            let w = eligible_candidates[i].current_weight as u128;
            if remaining < w {
                proof {
                    assert(prefix_weight(eligible_candidates@, i as int + 1) == prefix_weight(
                        eligible_candidates@,
                        i as int,
                    ) + eligible_candidates@[i as int].current_weight);
                }
                return Some(i);
            }
            remaining = remaining - w;
            i = i + 1;
        }

        // The walk cannot fall off the end: the cursor offset lies below the
        // total weight, so some slice contains it.
        proof {
            assert(remaining as int == c as int - total_weight(eligible_candidates@));
            assert(false);
        }
        Some(0)
    }
}

} // verus!

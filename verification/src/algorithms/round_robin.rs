use vstd::prelude::*;

use crate::state::Backend;

verus! {

/// The candidate index a round-robin cursor maps to.
pub open spec fn rr_index(cursor: u64, len: nat) -> nat
    recommends
        len > 0,
{
    (cursor as nat) % len
}

/// How the shared cursor advances on each selection; like the atomic counter
/// it models, it wraps around at the top of its range.
pub open spec fn rr_next(cursor: u64) -> u64 {
    if cursor == u64::MAX {
        0
    } else {
        (cursor + 1) as u64
    }
}

/// What one round-robin selection does: `None` exactly on an empty candidate
/// list; otherwise the cursor's index, and the cursor advances by one.
pub open spec fn rr_selects(
    pre: RoundRobin,
    post: RoundRobin,
    s: Seq<Backend>,
    r: Option<usize>,
) -> bool {
    if s.len() == 0 {
        r is None && post == pre
    } else {
        &&& post.cursor == rr_next(pre.cursor)
        &&& r matches Some(i) && i as nat == rr_index(pre.cursor, s.len())
    }
}

/// Simple sequential distribution: a monotonic cursor, reduced modulo the
/// candidate count. Ignores weight and load entirely.
pub struct RoundRobin {
    pub cursor: u64,
}

impl RoundRobin {
    pub fn new() -> (r: Self)
        ensures
            r.cursor == 0,
    {
        RoundRobin { cursor: 0 }
    }

    /// Picks `cursor % len` and advances the cursor. Returns `None` only when
    /// the candidate list is empty.
    pub fn select_backend(&mut self, eligible_candidates: &Vec<Backend>) -> (r: Option<usize>)
        ensures
            rr_selects(*old(self), *final(self), eligible_candidates@, r),
            r is None <==> eligible_candidates@.len() == 0,
            r matches Some(i) ==> i < eligible_candidates@.len(),
    {
        if eligible_candidates.len() == 0 {
            return None;
        }
        let idx = (self.cursor % (eligible_candidates.len() as u64)) as usize;
        self.cursor = if self.cursor == u64::MAX {
            0
        } else {
            self.cursor + 1
        };
        Some(idx)
    }
}

} // verus!

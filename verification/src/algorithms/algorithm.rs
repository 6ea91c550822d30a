use vstd::prelude::*;

use crate::algorithms::adaptive_least_conn::alc_selects;
use crate::algorithms::adaptive_least_conn::AdaptiveLeastConn;
use crate::algorithms::least_conn::lc_selects;
use crate::algorithms::least_conn::LeastConn;
use crate::algorithms::round_robin::rr_selects;
use crate::algorithms::round_robin::RoundRobin;
use crate::algorithms::weighted_round_robin::wrr_selects;
use crate::algorithms::weighted_round_robin::WeightedRoundRobin;
use crate::config::AlgorithmCfg;
use crate::state::Backend;

verus! {

/// The closed set of selection strategies, chosen once at startup from
/// configuration; dispatch is a single `match` per routing decision.
pub enum Algorithm {
    RoundRobin(RoundRobin),
    LeastConn(LeastConn),
    AdaptiveLeastConn(AdaptiveLeastConn),
    WeightedRoundRobin(WeightedRoundRobin),
}

impl Algorithm {
    /// The strategy a configuration value names, in its initial state.
    pub open spec fn initial_for(cfg: AlgorithmCfg) -> Algorithm {
        match cfg {
            AlgorithmCfg::RoundRobin => Algorithm::RoundRobin(RoundRobin { cursor: 0 }),
            AlgorithmCfg::LeastConn => Algorithm::LeastConn(LeastConn),
            AlgorithmCfg::AdaptiveLeastConn => Algorithm::AdaptiveLeastConn(AdaptiveLeastConn),
            AlgorithmCfg::WeightedRoundRobin => Algorithm::WeightedRoundRobin(
                WeightedRoundRobin { cursor: 0 },
            ),
        }
    }

    /// Builds the strategy that the configuration selects.
    pub fn select(cfg: AlgorithmCfg) -> (r: Algorithm)
        ensures
            r == Algorithm::initial_for(cfg),
    {
        match cfg {
            AlgorithmCfg::RoundRobin => Algorithm::RoundRobin(RoundRobin::new()),
            AlgorithmCfg::LeastConn => Algorithm::LeastConn(LeastConn::new()),
            AlgorithmCfg::AdaptiveLeastConn => Algorithm::AdaptiveLeastConn(
                AdaptiveLeastConn::new(),
            ),
            AlgorithmCfg::WeightedRoundRobin => Algorithm::WeightedRoundRobin(
                WeightedRoundRobin::new(),
            ),
        }
    }

    /// What one selection does, by strategy: the stateless strategies leave
    /// the value unchanged and pick the stable minimum; the cursor-driven
    /// ones advance their cursor and pick its slot.
    pub open spec fn selects(
        pre: Algorithm,
        post: Algorithm,
        s: Seq<Backend>,
        r: Option<usize>,
    ) -> bool {
        match pre {
            Algorithm::RoundRobin(a) => post matches Algorithm::RoundRobin(a2) && rr_selects(
                a,
                a2,
                s,
                r,
            ),
            Algorithm::LeastConn(a) => post == pre && lc_selects(s, r),
            Algorithm::AdaptiveLeastConn(a) => post == pre && alc_selects(s, r),
            Algorithm::WeightedRoundRobin(a) => post matches Algorithm::WeightedRoundRobin(a2)
                && wrr_selects(a, a2, s, r),
        }
    }

    /// Picks one index into the candidate list, whichever strategy this is.
    /// Returns `None` only when the candidate list is empty.
    pub fn select_backend(&mut self, eligible_candidates: &Vec<Backend>) -> (r: Option<usize>)
        ensures
            Algorithm::selects(*old(self), *final(self), eligible_candidates@, r),
            r is None <==> eligible_candidates@.len() == 0,
            r matches Some(i) ==> i < eligible_candidates@.len(),
    {
        match self {
            Algorithm::RoundRobin(a) => a.select_backend(eligible_candidates),
            Algorithm::LeastConn(a) => a.select_backend(eligible_candidates),
            Algorithm::AdaptiveLeastConn(a) => a.select_backend(eligible_candidates),
            Algorithm::WeightedRoundRobin(a) => a.select_backend(eligible_candidates),
        }
    }
}

} // verus!

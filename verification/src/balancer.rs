use vstd::prelude::*;

use crate::algorithms::algorithm::Algorithm;
use crate::state::Backend;

verus! {

/// Why routing a connection failed. Per-connection errors are local to that
/// connection and never fatal to the process.
#[derive(Clone, Copy, Debug, PartialEq, Eq, Structural)]
pub enum RoutingError {
    /// No eligible candidate was left after the bounded retries.
    NoBackendAvailable,
    /// The outbound connection to the chosen backend could not be established.
    DialFailure,
    /// The bidirectional relay failed on either peer.
    ProxyIOError,
}

/// What the router does next after one routing attempt.
#[derive(Clone, Copy, Debug, PartialEq, Eq, Structural)]
pub enum RouteStep {
    /// Count a connection against the backend at this registry index, then
    /// dial it and relay.
    Connect(usize),
    /// No candidate right now: wait the fixed short delay, then try again
    /// over a fresh snapshot, with this many retries left.
    RetryAfterDelay(u8),
    /// The retry budget is spent: give up on this connection.
    Fail(RoutingError),
}

/// Registry indices of the backends passing the eligibility filter, among
/// the first `n` entries, in registry order.
pub open spec fn eligible_indices(s: Seq<Backend>, n: int) -> Seq<int>
    decreases n,
{
    if n <= 0 {
        Seq::empty()
    } else if s[n - 1].eligible() {
        eligible_indices(s, n - 1).push(n - 1)
    } else {
        eligible_indices(s, n - 1)
    }
}

/// The ephemeral per-decision candidate list: the eligible backends, in
/// registry order. Recomputed from a fresh snapshot for every attempt.
pub open spec fn candidate_list(s: Seq<Backend>) -> Seq<Backend> {
    eligible_indices(s, s.len() as int).map_values(|i: int| s[i])
}

/// The filtered index list points at eligible backends only, and it is
/// empty exactly when no backend is eligible.
pub proof fn lemma_eligible_indices(s: Seq<Backend>, n: int)
    requires
        0 <= n <= s.len(),
    ensures
        forall|j: int|
            0 <= j < eligible_indices(s, n).len() ==> 0 <= #[trigger] eligible_indices(s, n)[j]
                < n && s[eligible_indices(s, n)[j]].eligible(),
        eligible_indices(s, n).len() == 0 <==> (forall|i: int|
            0 <= i < n ==> !(#[trigger] s[i]).eligible()),
    decreases n,
{
    if n > 0 {
        lemma_eligible_indices(s, n - 1);
    }
}

/// The registry after a connection is counted against backend `k`.
pub open spec fn with_conn_started(s: Seq<Backend>, k: int) -> Seq<Backend> {
    s.update(k, Backend { active_conn: (s[k].active_conn + 1) as u64, ..s[k] })
}

/// The registry after backend `k`'s connection count is released.
pub open spec fn with_conn_ended(s: Seq<Backend>, k: int) -> Seq<Backend> {
    s.update(k, Backend { active_conn: (s[k].active_conn - 1) as u64, ..s[k] })
}

/// Counts a routed connection against the chosen backend before the dial;
/// the increment brackets the whole operation, whatever its outcome.
pub fn begin_connection(backends: &mut Vec<Backend>, k: usize)
    requires
        k < old(backends)@.len(),
        old(backends)@[k as int].active_conn < u64::MAX,
    ensures
        final(backends)@ == with_conn_started(old(backends)@, k as int),
{
    let b = &mut backends[k];
    b.active_conn = b.active_conn + 1;
    proof {
        assert(backends@ =~= with_conn_started(old(backends)@, k as int));
    }
}

/// Releases the count when the connection task ends; called on every exit
/// path — normal close, relay error, and a failed dial alike.
pub fn end_connection(backends: &mut Vec<Backend>, k: usize)
    requires
        k < old(backends)@.len(),
        old(backends)@[k as int].active_conn > 0,
    ensures
        final(backends)@ == with_conn_ended(old(backends)@, k as int),
{
    let b = &mut backends[k];
    b.active_conn = b.active_conn - 1;
    proof {
        assert(backends@ =~= with_conn_ended(old(backends)@, k as int));
    }
}

/// Connection-count invariant: counting a connection in and back out —
/// whether the dial, the relay, or neither failed in between — returns the
/// registry, and in particular the chosen backend's `active_conn`, to
/// exactly its pre-routing state.
pub proof fn lemma_connection_count_restored(s: Seq<Backend>, k: int)
    requires
        0 <= k < s.len(),
        s[k].active_conn < u64::MAX,
    ensures
        with_conn_ended(with_conn_started(s, k), k) == s,
{
    assert(with_conn_ended(with_conn_started(s, k), k) =~= s);
}

/// How the router surfaces the outcome of the dial and the relay: a failed
/// dial is `DialFailure`, a failed relay is `ProxyIOError`, and a clean
/// relay completes the connection.
pub fn connection_outcome(dial_succeeded: bool, proxy_succeeded: bool) -> (r: Result<
    (),
    RoutingError,
>)
    ensures
        !dial_succeeded ==> r == Result::<(), RoutingError>::Err(RoutingError::DialFailure),
        dial_succeeded && !proxy_succeeded ==> r == Result::<(), RoutingError>::Err(
            RoutingError::ProxyIOError,
        ),
        dial_succeeded && proxy_succeeded ==> r == Result::<(), RoutingError>::Ok(()),
{
    if !dial_succeeded {
        Err(RoutingError::DialFailure)
    } else if !proxy_succeeded {
        Err(RoutingError::ProxyIOError)
    } else {
        Ok(())
    }
}

/// Per-connection orchestrator: holds the strategy chosen at startup and
/// decides, per fresh registry snapshot, where a connection goes.
pub struct Balancer {
    pub algorithm: Algorithm,
}

impl Balancer {
    pub fn new(algorithm: Algorithm) -> (r: Self)
        ensures
            r.algorithm == algorithm,
    {
        Balancer { algorithm }
    }

    /// Registry indices of the backends that can take a new connection:
    /// `current_weight > 0` and `active_conn < max_conn`, both strict.
    pub fn get_eligible_candidates(&self, backends: &Vec<Backend>) -> (r: Vec<usize>)
        ensures
            r@.len() == eligible_indices(backends@, backends@.len() as int).len(),
            forall|j: int|
                0 <= j < r@.len() ==> #[trigger] r@[j] as int == eligible_indices(
                    backends@,
                    backends@.len() as int,
                )[j],
    {
        let mut r: Vec<usize> = Vec::new();
        let mut i: usize = 0;
        while i < backends.len()
            invariant
                i <= backends@.len(),
                r@.len() == eligible_indices(backends@, i as int).len(),
                forall|j: int|
                    0 <= j < r@.len() ==> #[trigger] r@[j] as int == eligible_indices(
                        backends@,
                        i as int,
                    )[j],
            decreases backends@.len() - i,
        {
            let b = &backends[i];
            if b.has_some_wight() && !b.is_max_conn_reached() {
                r.push(i);
            }
            i = i + 1;
        }
        r
    }

    /// One routing decision over a fresh snapshot: filter the registry to
    /// the candidate list, ask the strategy, and translate the winner back
    /// to its registry index. Returns `None` exactly when no backend is
    /// eligible.
    pub fn route_decision(&mut self, backends: &Vec<Backend>) -> (r: Option<usize>)
        ensures
            r is None <==> (forall|i: int|
                0 <= i < backends@.len() ==> !(#[trigger] backends@[i]).eligible()),
            r matches Some(k) ==> k < backends@.len() && backends@[k as int].eligible(),
            ({
                let idxs = eligible_indices(backends@, backends@.len() as int);
                let cands = candidate_list(backends@);
                match r {
                    None => Algorithm::selects(
                        old(self).algorithm,
                        final(self).algorithm,
                        cands,
                        None,
                    ),
                    Some(k) => exists|j: int|
                        #![auto]
                        0 <= j < idxs.len() && idxs[j] == k as int && Algorithm::selects(
                            old(self).algorithm,
                            final(self).algorithm,
                            cands,
                            Some(j as usize),
                        ),
                }
            }),
    {
        let idxs = self.get_eligible_candidates(backends);
        proof {
            lemma_eligible_indices(backends@, backends@.len() as int);
        }
        let mut cands: Vec<Backend> = Vec::new();
        let mut t: usize = 0;
        while t < idxs.len()
            invariant
                t <= idxs@.len(),
                idxs@.len() == eligible_indices(backends@, backends@.len() as int).len(),
                forall|j: int|
                    0 <= j < idxs@.len() ==> #[trigger] idxs@[j] as int == eligible_indices(
                        backends@,
                        backends@.len() as int,
                    )[j],
                forall|j: int| 0 <= j < idxs@.len() ==> #[trigger] idxs@[j] < backends@.len(),
                cands@.len() == t,
                forall|m: int| 0 <= m < t ==> #[trigger] cands@[m] == backends@[idxs@[m] as int],
            decreases idxs@.len() - t,
        {
            cands.push(backends[idxs[t]].clone());
            t = t + 1;
        }
        proof {
            lemma_eligible_indices(backends@, backends@.len() as int);
            assert(cands@ =~= candidate_list(backends@));
        }
        let sel = self.algorithm.select_backend(&cands);
        match sel {
            None => None,
            Some(j) => Some(idxs[j]),
        }
    }

    /// Drives the bounded retry loop one step: with an eligible candidate
    /// the connection is routed; with none and retries left the router waits
    /// and re-snapshots; with the budget spent the connection fails with
    /// `NoBackendAvailable`.
    pub fn route_attempt(&mut self, backends: &Vec<Backend>, retries_left: u8) -> (r: RouteStep)
        ensures
            (exists|i: int| 0 <= i < backends@.len() && (#[trigger] backends@[i]).eligible())
                ==> (r matches RouteStep::Connect(k) && k < backends@.len() && backends@[
                k as int
            ].eligible()),
            (forall|i: int| 0 <= i < backends@.len() ==> !(#[trigger] backends@[i]).eligible())
                && retries_left > 0 ==> r == RouteStep::RetryAfterDelay((retries_left - 1) as u8),
            (forall|i: int| 0 <= i < backends@.len() ==> !(#[trigger] backends@[i]).eligible())
                && retries_left == 0 ==> r == RouteStep::Fail(RoutingError::NoBackendAvailable),
            r matches RouteStep::Connect(k) ==> ({
                let idxs = eligible_indices(backends@, backends@.len() as int);
                exists|j: int|
                    #![auto]
                    0 <= j < idxs.len() && idxs[j] == k as int && Algorithm::selects(
                        old(self).algorithm,
                        final(self).algorithm,
                        candidate_list(backends@),
                        Some(j as usize),
                    )
            }),
    {
        match self.route_decision(backends) {
            Some(k) => RouteStep::Connect(k),
            None => {
                if retries_left > 0 {
                    RouteStep::RetryAfterDelay(retries_left - 1)
                } else {
                    RouteStep::Fail(RoutingError::NoBackendAvailable)
                }
            }
        }
    }
}

} // verus!

use vstd::prelude::*;

use crate::config::ThresholdsCfg;
use crate::logging::ExporterEvent;
use crate::state::Backend;

verus! {

/// The latency estimate after one measured probe: the first measurement is
/// taken as-is (so the estimate does not start biased toward zero); later
/// ones are folded in with 30% weight for the newest sample.
pub open spec fn ema_latency(old_avg: int, latency: int) -> int {
    if old_avg == 0 {
        latency
    } else {
        (old_avg * 7 + latency * 3) / 10
    }
}

/// Weight after a gradual step down on a latency breach, floored at 0.
pub open spec fn weight_stepped_down(w: int, step: int) -> int {
    if w >= step {
        w - step
    } else {
        0
    }
}

/// Weight after a recovery step up, capped at the base weight.
pub open spec fn weight_stepped_up(w: int, step: int, base: int) -> int {
    if w + step >= base {
        base
    } else {
        w + step
    }
}

/// One backend's state after a health tick: a failed probe trips the weight
/// straight to 0; a measured probe updates the latency estimate, then steps
/// the weight down on a breach of the critical threshold, up while not yet
/// fully recovered, and leaves it alone at full weight.
pub open spec fn backend_after_probe(b: Backend, probe: Option<u64>, th: ThresholdsCfg) -> Backend {
    match probe {
        Option::None => Backend { current_weight: 0, ..b },
        Option::Some(lat) => {
            let new_avg = ema_latency(b.avg_latency_ms as int, lat as int) as u64;
            if lat >= th.latency_critical_ms {
                Backend {
                    avg_latency_ms: new_avg,
                    current_weight: weight_stepped_down(
                        b.current_weight as int,
                        th.recovery_step as int,
                    ) as u64,
                    ..b
                }
            } else if b.current_weight < b.base_weight {
                Backend {
                    avg_latency_ms: new_avg,
                    current_weight: weight_stepped_up(
                        b.current_weight as int,
                        th.recovery_step as int,
                        b.base_weight as int,
                    ) as u64,
                    ..b
                }
            } else {
                Backend { avg_latency_ms: new_avg, ..b }
            }
        }
    }
}

/// The event a tick emits for one backend: `BackendDown` on a failed probe,
/// `WeightDecreased` on a latency breach, `WeightIncreased` while
/// recovering, and none at full weight with healthy latency.
pub open spec fn event_after_probe(b: Backend, probe: Option<u64>, th: ThresholdsCfg) -> Option<
    ExporterEvent,
> {
    match probe {
        Option::None => Option::Some(ExporterEvent::BackendDown { addr: b.addr }),
        Option::Some(lat) => {
            if lat >= th.latency_critical_ms {
                Option::Some(
                    ExporterEvent::WeightDecreased {
                        addr: b.addr,
                        old_weight: b.current_weight,
                        new_weight: weight_stepped_down(
                            b.current_weight as int,
                            th.recovery_step as int,
                        ) as u64,
                        latency_ms: lat,
                    },
                )
            } else if b.current_weight < b.base_weight {
                Option::Some(
                    ExporterEvent::WeightIncreased {
                        addr: b.addr,
                        old_weight: b.current_weight,
                        new_weight: weight_stepped_up(
                            b.current_weight as int,
                            th.recovery_step as int,
                            b.base_weight as int,
                        ) as u64,
                        latency_ms: lat,
                    },
                )
            } else {
                Option::None
            }
        }
    }
}

/// A tick touches only the latency estimate and the current weight, and it
/// keeps the weight invariant.
pub proof fn lemma_probe_preserves_wf(b: Backend, probe: Option<u64>, th: ThresholdsCfg)
    requires
        b.wf(),
    ensures
        backend_after_probe(b, probe, th).wf(),
        backend_after_probe(b, probe, th).id == b.id,
        backend_after_probe(b, probe, th).addr == b.addr,
        backend_after_probe(b, probe, th).max_conn == b.max_conn,
        backend_after_probe(b, probe, th).base_weight == b.base_weight,
        backend_after_probe(b, probe, th).active_conn == b.active_conn,
{
}

/// Applies one health tick's outcome for one backend and returns the event
/// to emit, if any.
pub fn apply_probe(backend: &mut Backend, probe: Option<u64>, thresholds: &ThresholdsCfg) -> (ev:
    Option<ExporterEvent>)
    requires
        old(backend).wf(),
    ensures
        *final(backend) == backend_after_probe(*old(backend), probe, *thresholds),
        ev == event_after_probe(*old(backend), probe, *thresholds),
        final(backend).wf(),
{
    proof {
        lemma_probe_preserves_wf(*old(backend), probe, *thresholds);
    }
    match probe {
        Option::None => {
            // Applying the circuit breaker: the backend is unreachable, so it
            // is excluded from routing until it warms back up.
            backend.current_weight = 0;
            Option::Some(ExporterEvent::BackendDown { addr: backend.addr.clone() })
        }
        Option::Some(lat) => {
            let old_weight = backend.current_weight;
            let new_avg: u64 = if backend.avg_latency_ms == 0 {
                lat
            } else {
                let x = (backend.avg_latency_ms as u128) * 7 + (lat as u128) * 3;
                proof {
                    assert(x / 10 <= 0xffff_ffff_ffff_ffffu128) by (nonlinear_arith)
                        requires
                            x <= 10 * 0xffff_ffff_ffff_ffffu128,
                    ;
                }
                (x / 10) as u64
            };
            backend.avg_latency_ms = new_avg;
            if backend.exceeds_latency_threshold(lat, thresholds.latency_critical_ms) {
                // Reduce the weight gracefully; under consistently critical
                // latency it walks to 0 and routing stops picking the backend.
                let nw = if old_weight >= thresholds.recovery_step {
                    old_weight - thresholds.recovery_step
                } else {
                    0
                };
                backend.current_weight = nw;
                Option::Some(
                    ExporterEvent::WeightDecreased {
                        addr: backend.addr.clone(),
                        old_weight,
                        new_weight: nw,
                        latency_ms: lat,
                    },
                )
            } else if old_weight < backend.base_weight {
                // Healthy latency while not yet at full weight: restore the
                // weight incrementally, capped at the base weight.
                let room = backend.base_weight - old_weight;
                let nw = if thresholds.recovery_step >= room {
                    backend.base_weight
                } else {
                    old_weight + thresholds.recovery_step
                };
                backend.current_weight = nw;
                Option::Some(
                    ExporterEvent::WeightIncreased {
                        addr: backend.addr.clone(),
                        old_weight,
                        new_weight: nw,
                        latency_ms: lat,
                    },
                )
            } else {
                Option::None
            }
        }
    }
}

/// Every backend's state after one whole tick over the registry.
pub open spec fn registry_after_tick(
    s: Seq<Backend>,
    probes: Seq<Option<u64>>,
    th: ThresholdsCfg,
) -> Seq<Backend> {
    Seq::new(s.len(), |i: int| backend_after_probe(s[i], probes[i], th))
}

/// The events one whole tick emits for the first `n` backends, in registry
/// order, with the silent ticks left out.
pub open spec fn events_after_tick(
    s: Seq<Backend>,
    probes: Seq<Option<u64>>,
    th: ThresholdsCfg,
    n: int,
) -> Seq<ExporterEvent>
    decreases n,
{
    if n <= 0 {
        Seq::empty()
    } else {
        events_after_tick(s, probes, th, n - 1) + match event_after_probe(
            s[n - 1],
            probes[n - 1],
            th,
        ) {
            Option::Some(e) => seq![e],
            Option::None => Seq::empty(),
        }
    }
}

/// One backend's state after a whole sequence of health ticks, applied in
/// order.
pub open spec fn backend_after_probes(
    b: Backend,
    probes: Seq<Option<u64>>,
    th: ThresholdsCfg,
) -> Backend
    decreases probes.len(),
{
    if probes.len() == 0 {
        b
    } else {
        backend_after_probes(backend_after_probe(b, probes[0], th), probes.drop_first(), th)
    }
}

/// Backend weight invariant: after any sequence of health ticks the weight
/// still lies in `[0, base_weight]`, and the descriptor fields and the
/// connection count are untouched.
pub proof fn lemma_weight_invariant_after_ticks(
    b: Backend,
    probes: Seq<Option<u64>>,
    th: ThresholdsCfg,
)
    requires
        b.wf(),
    ensures
        backend_after_probes(b, probes, th).wf(),
        backend_after_probes(b, probes, th).id == b.id,
        backend_after_probes(b, probes, th).addr == b.addr,
        backend_after_probes(b, probes, th).max_conn == b.max_conn,
        backend_after_probes(b, probes, th).base_weight == b.base_weight,
        backend_after_probes(b, probes, th).active_conn == b.active_conn,
    decreases probes.len(),
{
    if probes.len() > 0 {
        lemma_probe_preserves_wf(b, probes[0], th);
        lemma_weight_invariant_after_ticks(
            backend_after_probe(b, probes[0], th),
            probes.drop_first(),
            th,
        );
    }
}

/// Circuit breaker: one failed probe trips the weight to 0 within that very
/// tick, emits `BackendDown`, and the tripped backend fails the router's
/// eligibility filter on the very next routing decision.
pub proof fn lemma_failed_probe_trips_backend(b: Backend, th: ThresholdsCfg)
    ensures
        backend_after_probe(b, Option::None, th).current_weight == 0,
        !backend_after_probe(b, Option::None, th).eligible(),
        event_after_probe(b, Option::None, th) == Option::Some(
            ExporterEvent::BackendDown { addr: b.addr },
        ),
{
}

/// Every probe in the sequence measured a latency below the critical
/// threshold.
pub open spec fn all_probes_healthy(probes: Seq<Option<u64>>, th: ThresholdsCfg) -> bool {
    forall|i: int|
        0 <= i < probes.len() ==> ((#[trigger] probes[i]) matches Option::Some(l) && l
            < th.latency_critical_ms)
}

/// Recovery progress: each healthy tick steps the weight up by
/// `recovery_step`, so after `k` of them it stands at the smaller of
/// `base_weight` and `old weight + k * recovery_step`.
pub proof fn lemma_recovery_progress(b: Backend, probes: Seq<Option<u64>>, th: ThresholdsCfg)
    requires
        b.wf(),
        th.recovery_step > 0,
        all_probes_healthy(probes, th),
    ensures
        backend_after_probes(b, probes, th).current_weight as int == if b.current_weight
            + probes.len() * th.recovery_step >= b.base_weight {
            b.base_weight as int
        } else {
            b.current_weight + probes.len() * th.recovery_step
        },
    decreases probes.len(),
{
    if probes.len() > 0 {
        let b1 = backend_after_probe(b, probes[0], th);
        lemma_probe_preserves_wf(b, probes[0], th);
        assert(all_probes_healthy(probes.drop_first(), th)) by {
            assert(forall|i: int|
                0 <= i < probes.drop_first().len() ==> #[trigger] probes.drop_first()[i]
                    == probes[i + 1]);
        }
        lemma_recovery_progress(b1, probes.drop_first(), th);
        assert((probes.len() - 1) * th.recovery_step + th.recovery_step == probes.len()
            * th.recovery_step) by (nonlinear_arith);
        assert((probes.len() - 1) * th.recovery_step >= 0) by (nonlinear_arith)
            requires
                probes.len() >= 1,
                th.recovery_step >= 0,
        ;
    }
}

/// Recovery scenario: a tripped backend (weight 0) that then passes healthy
/// probes for `ceil(base_weight / recovery_step)` consecutive ticks — that
/// is, for enough ticks that their steps sum to at least `base_weight` — is
/// back at its full base weight, and, given a positive base weight and
/// spare capacity, is eligible for routing again.
pub proof fn lemma_tripped_backend_recovers(b: Backend, probes: Seq<Option<u64>>, th: ThresholdsCfg)
    requires
        b.wf(),
        b.current_weight == 0,
        th.recovery_step > 0,
        all_probes_healthy(probes, th),
        probes.len() * th.recovery_step >= b.base_weight,
    ensures
        backend_after_probes(b, probes, th).current_weight == b.base_weight,
        b.base_weight > 0 && b.active_conn < b.max_conn ==> backend_after_probes(
            b,
            probes,
            th,
        ).eligible(),
{
    lemma_recovery_progress(b, probes, th);
    lemma_weight_invariant_after_ticks(b, probes, th);
}

/// One health tick over the whole registry: applies each backend's probe
/// outcome independently and returns the events to emit, in registry order.
pub fn run_health_tick(
    backends: &mut Vec<Backend>,
    probes: &Vec<Option<u64>>,
    thresholds: &ThresholdsCfg,
) -> (events: Vec<ExporterEvent>)
    requires
        old(backends)@.len() == probes@.len(),
        forall|i: int| 0 <= i < old(backends)@.len() ==> (#[trigger] old(backends)@[i]).wf(),
    ensures
        final(backends)@ == registry_after_tick(old(backends)@, probes@, *thresholds),
        events@ == events_after_tick(
            old(backends)@,
            probes@,
            *thresholds,
            old(backends)@.len() as int,
        ),
        forall|i: int| 0 <= i < final(backends)@.len() ==> (#[trigger] final(backends)@[i]).wf(),
{
    let mut events: Vec<ExporterEvent> = Vec::new();
    let n = backends.len();
    let mut i: usize = 0;
    while i < n
        invariant
            i <= n,
            n == backends@.len(),
            n == old(backends)@.len(),
            n == probes@.len(),
            forall|j: int| 0 <= j < n ==> (#[trigger] old(backends)@[j]).wf(),
            forall|j: int|
                0 <= j < i ==> #[trigger] backends@[j] == backend_after_probe(
                    old(backends)@[j],
                    probes@[j],
                    *thresholds,
                ),
            forall|j: int| i <= j < n ==> #[trigger] backends@[j] == old(backends)@[j],
            events@ == events_after_tick(old(backends)@, probes@, *thresholds, i as int),
        decreases n - i,
    {
        let b = &mut backends[i];
        let ev = apply_probe(b, probes[i], thresholds);
        match ev {
            Option::Some(e) => events.push(e),
            Option::None => (),
        }
        i = i + 1;
    }
    proof {
        assert(backends@ =~= registry_after_tick(old(backends)@, probes@, *thresholds));
        assert(forall|j: int|
            0 <= j < backends@.len() ==> (#[trigger] backends@[j]).wf()) by {
            assert forall|j: int| 0 <= j < backends@.len() implies (#[trigger] backends@[j]).wf() by {
                lemma_probe_preserves_wf(old(backends)@[j], probes@[j], *thresholds);
            }
        }
    }
    events
}

} // verus!

use monad_load_balancer::algorithms::algorithm::Algorithm;
use monad_load_balancer::balancer::Balancer;
use monad_load_balancer::config::AlgorithmCfg;
use monad_load_balancer::config::ThresholdsCfg;
use monad_load_balancer::health::apply_probe;
use monad_load_balancer::health::run_health_tick;
use monad_load_balancer::logging::ExporterEvent;
use monad_load_balancer::state::Backend;

fn backend(id: &str, addr: &str, max_conn: u64, weight: u64) -> Backend {
    Backend {
        id: id.to_string(),
        addr: addr.to_string(),
        max_conn,
        base_weight: weight,
        current_weight: weight,
        active_conn: 0,
        avg_latency_ms: 0,
    }
}

fn thresholds(latency_critical_ms: u64, recovery_step: u64) -> ThresholdsCfg {
    ThresholdsCfg {
        latency_critical_ms,
        recovery_step,
    }
}

#[test]
fn first_measurement_bootstraps_average() {
    let mut b = backend("a", "10.0.0.1:8080", 10, 10);
    let th = thresholds(1000, 2);
    let ev = apply_probe(&mut b, Some(100), &th);
    assert_eq!(b.avg_latency_ms, 100);
    // Healthy latency at full weight: no step, no event.
    assert_eq!(b.current_weight, 10);
    assert_eq!(ev, None);
}

#[test]
fn average_folds_in_new_sample_at_thirty_percent() {
    let mut b = backend("a", "10.0.0.1:8080", 10, 10);
    b.avg_latency_ms = 100;
    let th = thresholds(1000, 2);
    apply_probe(&mut b, Some(50), &th);
    // (100 * 7 + 50 * 3) / 10 == 85
    assert_eq!(b.avg_latency_ms, 85);
}

#[test]
fn latency_breach_steps_weight_down() {
    let mut b = backend("a", "10.0.0.1:8080", 10, 10);
    let th = thresholds(500, 3);
    let ev = apply_probe(&mut b, Some(500), &th);
    assert_eq!(b.current_weight, 7);
    assert_eq!(
        ev,
        Some(ExporterEvent::WeightDecreased {
            addr: "10.0.0.1:8080".to_string(),
            old_weight: 10,
            new_weight: 7,
            latency_ms: 500,
        })
    );
}

#[test]
fn weight_step_down_floors_at_zero() {
    let mut b = backend("a", "10.0.0.1:8080", 10, 10);
    b.current_weight = 2;
    let th = thresholds(500, 3);
    apply_probe(&mut b, Some(900), &th);
    assert_eq!(b.current_weight, 0);
}

#[test]
fn recovery_step_is_capped_at_base_weight() {
    let mut b = backend("a", "10.0.0.1:8080", 10, 10);
    b.current_weight = 9;
    let th = thresholds(500, 3);
    let ev = apply_probe(&mut b, Some(100), &th);
    assert_eq!(b.current_weight, 10);
    assert_eq!(
        ev,
        Some(ExporterEvent::WeightIncreased {
            addr: "10.0.0.1:8080".to_string(),
            old_weight: 9,
            new_weight: 10,
            latency_ms: 100,
        })
    );
}

#[test]
fn failed_probe_trips_weight_to_zero() {
    let mut b = backend("a", "10.0.0.1:8080", 10, 10);
    let th = thresholds(500, 3);
    let ev = apply_probe(&mut b, None, &th);
    assert_eq!(b.current_weight, 0);
    assert_eq!(
        ev,
        Some(ExporterEvent::BackendDown {
            addr: "10.0.0.1:8080".to_string(),
        })
    );
}

#[test]
fn tripped_backend_is_excluded_from_next_routing_decision() {
    let mut backends = vec![
        backend("a", "10.0.0.1:8080", 10, 10),
        backend("b", "10.0.0.2:8080", 10, 10),
    ];
    let th = thresholds(500, 3);
    // One tick in which "a"'s probe times out: tripped within that tick.
    let probes = vec![None, Some(100)];
    run_health_tick(&mut backends, &probes, &th);
    assert_eq!(backends[0].current_weight, 0);

    // The very next routing decision no longer sees "a".
    let mut bal = Balancer::new(Algorithm::select(AlgorithmCfg::RoundRobin));
    assert_eq!(bal.get_eligible_candidates(&backends), vec![1]);
    assert_eq!(bal.route_decision(&backends), Some(1));
}

#[test]
fn tripped_backend_recovers_in_ceil_base_over_step_ticks() {
    let mut b = backend("a", "10.0.0.1:8080", 10, 10);
    b.current_weight = 0;
    let th = thresholds(500, 3);
    // ceil(10 / 3) == 4 consecutive healthy ticks: 3, 6, 9, 10.
    let mut weights = Vec::new();
    for _ in 0..4 {
        apply_probe(&mut b, Some(100), &th);
        weights.push(b.current_weight);
    }
    assert_eq!(weights, vec![3, 6, 9, 10]);
    assert_eq!(b.current_weight, b.base_weight);

    // Back at full weight, it passes the eligibility filter again.
    let bal = Balancer::new(Algorithm::select(AlgorithmCfg::RoundRobin));
    assert_eq!(bal.get_eligible_candidates(&vec![b]), vec![0]);
}

#[test]
fn weight_stays_within_bounds_over_mixed_ticks() {
    let mut b = backend("a", "10.0.0.1:8080", 10, 7);
    let th = thresholds(500, 3);
    let probes = vec![
        Some(600),
        Some(600),
        None,
        Some(100),
        Some(100),
        Some(900),
        None,
        Some(100),
        Some(100),
        Some(100),
        Some(100),
    ];
    for p in probes {
        apply_probe(&mut b, p, &th);
        assert!(b.current_weight <= b.base_weight);
    }
    assert_eq!(b.base_weight, 7);
}

#[test]
fn health_tick_emits_events_in_registry_order() {
    let mut backends = vec![
        backend("a", "10.0.0.1:8080", 10, 10),
        backend("b", "10.0.0.2:8080", 10, 10),
        backend("c", "10.0.0.3:8080", 10, 10),
    ];
    backends[1].current_weight = 4;
    let th = thresholds(500, 3);
    // "a" healthy at full weight (silent), "b" recovering, "c" down.
    let probes = vec![Some(100), Some(200), None];
    let events = run_health_tick(&mut backends, &probes, &th);
    assert_eq!(
        events,
        vec![
            ExporterEvent::WeightIncreased {
                addr: "10.0.0.2:8080".to_string(),
                old_weight: 4,
                new_weight: 7,
                latency_ms: 200,
            },
            ExporterEvent::BackendDown {
                addr: "10.0.0.3:8080".to_string(),
            },
        ]
    );
    assert_eq!(backends[0].current_weight, 10);
    assert_eq!(backends[1].current_weight, 7);
    assert_eq!(backends[2].current_weight, 0);
}

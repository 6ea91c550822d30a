use monad_load_balancer::algorithms::adaptive_least_conn::AdaptiveLeastConn;
use monad_load_balancer::algorithms::algorithm::Algorithm;
use monad_load_balancer::algorithms::least_conn::LeastConn;
use monad_load_balancer::algorithms::round_robin::RoundRobin;
use monad_load_balancer::algorithms::weighted_round_robin::WeightedRoundRobin;
use monad_load_balancer::config::AlgorithmCfg;
use monad_load_balancer::state::Backend;

fn backend(id: &str, addr: &str, max_conn: u64, weight: u64) -> Backend {
    Backend {
        id: id.to_string(),
        addr: addr.to_string(),
        max_conn,
        base_weight: weight,
        current_weight: weight,
        active_conn: 0,
        avg_latency_ms: 0,
    }
}

#[test]
fn round_robin_test() {
    let backends: Vec<Backend> = vec![
        backend("1", "10.0.0.1:8080", 100, 1),
        backend("2", "10.0.0.2:8080", 150, 2),
        backend("3", "10.0.0.3:8080", 200, 3),
    ];

    let mut rr = RoundRobin::new();
    for i in 0..5usize {
        let selected = rr.select_backend(&backends).unwrap();
        let next_index = ((i % 3) + 1).to_string();
        assert_eq!(backends[selected].id, next_index);
    }
}

#[test]
fn round_robin_empty_returns_none() {
    let mut rr = RoundRobin::new();
    assert_eq!(rr.select_backend(&Vec::new()), None);
}

#[test]
fn round_robin_coverage_counts() {
    // Over 5 calls on 3 candidates, each index is hit at least
    // floor(5/3) = 1 and at most ceil(5/3) = 2 times.
    let backends: Vec<Backend> = vec![
        backend("a", "10.0.0.1:8080", 10, 1),
        backend("b", "10.0.0.2:8080", 10, 1),
        backend("c", "10.0.0.3:8080", 10, 1),
    ];
    let mut rr = RoundRobin::new();
    let mut counts = [0usize; 3];
    for _ in 0..5 {
        counts[rr.select_backend(&backends).unwrap()] += 1;
    }
    assert_eq!(counts, [2, 2, 1]);
    for &c in counts.iter() {
        assert!((1..=2).contains(&c));
    }
}

#[test]
fn least_conn_picks_minimum() {
    let mut backends: Vec<Backend> = vec![
        backend("a", "10.0.0.1:8080", 10, 1),
        backend("b", "10.0.0.2:8080", 10, 1),
        backend("c", "10.0.0.3:8080", 10, 1),
    ];
    backends[0].active_conn = 5;
    backends[1].active_conn = 2;
    backends[2].active_conn = 7;

    let lc = LeastConn::new();
    assert_eq!(lc.select_backend(&backends), Some(1));
}

#[test]
fn least_conn_tie_takes_lowest_index() {
    let mut backends: Vec<Backend> = vec![
        backend("a", "10.0.0.1:8080", 10, 1),
        backend("b", "10.0.0.2:8080", 10, 1),
        backend("c", "10.0.0.3:8080", 10, 1),
    ];
    backends[0].active_conn = 4;
    backends[1].active_conn = 3;
    backends[2].active_conn = 3;

    let lc = LeastConn::new();
    assert_eq!(lc.select_backend(&backends), Some(1));
}

#[test]
fn least_conn_empty_returns_none() {
    let lc = LeastConn::new();
    assert_eq!(lc.select_backend(&Vec::new()), None);
}

#[test]
fn adaptive_least_conn_prefers_less_loaded_despite_latency() {
    // Scores: 2 * 1000 + 500 = 2500 for the first candidate, which beats
    // the less-loaded but much slower second one, so the first is chosen.
    let mut backends: Vec<Backend> = vec![
        backend("a", "10.0.0.1:8080", 10, 1),
        backend("b", "10.0.0.2:8080", 10, 1),
    ];
    backends[0].active_conn = 2;
    backends[0].avg_latency_ms = 500;
    backends[1].active_conn = 1;
    backends[1].avg_latency_ms = 9000;

    let alc = AdaptiveLeastConn::new();
    assert_eq!(alc.select_backend(&backends), Some(0));
}

#[test]
fn adaptive_least_conn_latency_breaks_ties() {
    let mut backends: Vec<Backend> = vec![
        backend("a", "10.0.0.1:8080", 10, 1),
        backend("b", "10.0.0.2:8080", 10, 1),
    ];
    backends[0].active_conn = 1;
    backends[0].avg_latency_ms = 300;
    backends[1].active_conn = 1;
    backends[1].avg_latency_ms = 100;

    let alc = AdaptiveLeastConn::new();
    assert_eq!(alc.select_backend(&backends), Some(1));
}

#[test]
fn weighted_round_robin_distributes_proportionally() {
    // Weights [1, 2, 3] sum to 6; 600 calls are 100 full cursor periods,
    // so the counts are exactly proportional: 100, 200, 300.
    let backends: Vec<Backend> = vec![
        backend("a", "10.0.0.1:8080", 10, 1),
        backend("b", "10.0.0.2:8080", 10, 2),
        backend("c", "10.0.0.3:8080", 10, 3),
    ];
    let mut wrr = WeightedRoundRobin::new();
    let mut counts = [0usize; 3];
    for _ in 0..600 {
        counts[wrr.select_backend(&backends).unwrap()] += 1;
    }
    assert_eq!(counts, [100, 200, 300]);
}

#[test]
fn weighted_round_robin_skips_zero_weight() {
    let backends: Vec<Backend> = vec![
        backend("a", "10.0.0.1:8080", 10, 0),
        backend("b", "10.0.0.2:8080", 10, 1),
    ];
    let mut wrr = WeightedRoundRobin::new();
    for _ in 0..10 {
        assert_eq!(wrr.select_backend(&backends), Some(1));
    }
}

#[test]
fn weighted_round_robin_all_zero_matches_round_robin() {
    let backends: Vec<Backend> = vec![
        backend("a", "10.0.0.1:8080", 10, 0),
        backend("b", "10.0.0.2:8080", 10, 0),
        backend("c", "10.0.0.3:8080", 10, 0),
    ];
    let mut wrr = WeightedRoundRobin::new();
    let mut rr = RoundRobin::new();
    for _ in 0..12 {
        assert_eq!(wrr.select_backend(&backends), rr.select_backend(&backends));
    }
}

#[test]
fn weighted_round_robin_empty_returns_none() {
    let mut wrr = WeightedRoundRobin::new();
    assert_eq!(wrr.select_backend(&Vec::new()), None);
}

#[test]
fn algorithm_factory_dispatches_each_strategy() {
    let mut backends: Vec<Backend> = vec![
        backend("a", "10.0.0.1:8080", 10, 1),
        backend("b", "10.0.0.2:8080", 10, 5),
    ];
    backends[0].active_conn = 9;

    let mut rr = Algorithm::select(AlgorithmCfg::RoundRobin);
    assert_eq!(rr.select_backend(&backends), Some(0));
    assert_eq!(rr.select_backend(&backends), Some(1));

    let mut lc = Algorithm::select(AlgorithmCfg::LeastConn);
    assert_eq!(lc.select_backend(&backends), Some(1));

    let mut alc = Algorithm::select(AlgorithmCfg::AdaptiveLeastConn);
    assert_eq!(alc.select_backend(&backends), Some(1));

    // Weights 1 and 5: the first period gives one pick of "a", five of "b".
    let mut wrr = Algorithm::select(AlgorithmCfg::WeightedRoundRobin);
    assert_eq!(wrr.select_backend(&backends), Some(0));
    for _ in 0..5 {
        assert_eq!(wrr.select_backend(&backends), Some(1));
    }
}

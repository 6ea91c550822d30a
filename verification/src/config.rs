use vstd::prelude::*;

verus! {

/// Supported load balancing strategies.
#[derive(Clone, Copy, Debug, PartialEq, Eq, Structural)]
pub enum AlgorithmCfg {
    /// Routes traffic to the server with the fewest active connections.
    LeastConn,
    /// Adjusts routing based on real-time backend latency.
    AdaptiveLeastConn,
    /// Simple sequential distribution.
    RoundRobin,
    /// Distribution based on predefined server weights.
    WeightedRoundRobin,
}

/// A specific server destination where traffic is routed.
#[derive(Debug)]
pub struct BackendCfg {
    /// Unique identifier for the server (e.g., "srv-01").
    pub id: String,
    /// The IP address and port (e.g., "10.0.0.1:8080").
    pub address: String,
    /// Maximum concurrent connections allowed for this backend.
    pub max_conn: u64,
    /// Relative priority/capacity of this backend compared to others.
    pub weight: u64,
}

/// Settings defining how the balancer operates.
#[derive(Debug)]
pub struct BalancerServerCfg {
    /// The specific strategy used to distribute traffic.
    pub algorithm: AlgorithmCfg,
    /// Frequency of health checks in milliseconds.
    pub check_interval_ms: u64,
    /// The network port the load balancer listens on.
    pub port: u16,
}

/// Rules for circuit breaking and health monitoring.
#[derive(Debug)]
pub struct ThresholdsCfg {
    /// Maximum probe round-trip time allowed before a backend's weight is
    /// stepped down; also the probe timeout.
    pub latency_critical_ms: u64,
    /// The increment by which weight is restored during server recovery,
    /// and the decrement applied on a latency breach.
    pub recovery_step: u64,
}

/// Root configuration for the load balancer system.
#[derive(Debug)]
pub struct LoadBalancerCfg {
    /// Core settings for the balancing logic and networking.
    pub balancer_cfg: BalancerServerCfg,
    /// A list of destination servers for traffic distribution.
    pub backends: Vec<BackendCfg>,
    /// Safety limits and recovery parameters for traffic management.
    pub thresholds_cfg: ThresholdsCfg,
}

} // verus!

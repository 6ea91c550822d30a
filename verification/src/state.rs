use vstd::prelude::*;

use crate::config::BackendCfg;

verus! {

/// One destination server: its immutable descriptor fields and the runtime
/// counters that routing and health monitoring read and write.
#[derive(Debug, PartialEq)]
pub struct Backend {
    /// Unique identifier, copied from configuration.
    pub id: String,
    /// Network address, copied from configuration.
    pub addr: String,
    /// Maximum concurrent connections allowed.
    pub max_conn: u64,
    /// The weight the backend was configured with; `current_weight` never
    /// exceeds it.
    pub base_weight: u64,
    /// Live weight in `[0, base_weight]`, stepped by the health monitor.
    pub current_weight: u64,
    /// Number of connections currently routed to this backend.
    pub active_conn: u64,
    /// Exponentially-weighted moving average of probe round-trip time.
    pub avg_latency_ms: u64,
}

impl Backend {
    /// The weight invariant: `current_weight` stays within `[0, base_weight]`
    /// for the whole life of the backend.
    pub open spec fn wf(self) -> bool {
        self.current_weight <= self.base_weight
    }

    /// A backend accepts a new connection only while it has weight left and
    /// spare capacity: `current_weight > 0` and `active_conn < max_conn`,
    /// both strict.
    pub open spec fn eligible(self) -> bool {
        self.current_weight > 0 && self.active_conn < self.max_conn
    }

    /// Builds the runtime state for a configured backend: full weight, no
    /// connections, no latency estimate yet.
    pub fn from_cfg(cfg: &BackendCfg) -> (r: Backend)
        ensures
            r.id == cfg.id,
            r.addr == cfg.address,
            r.max_conn == cfg.max_conn,
            r.base_weight == cfg.weight,
            r.current_weight == cfg.weight,
            r.active_conn == 0,
            r.avg_latency_ms == 0,
            r.wf(),
    {
        Backend {
            id: cfg.id.clone(),
            addr: cfg.address.clone(),
            max_conn: cfg.max_conn,
            base_weight: cfg.weight,
            current_weight: cfg.weight,
            avg_latency_ms: 0,
            active_conn: 0,
        }
    }

    pub fn exceeds_latency_threshold(
        &self,
        curr_latency: u64,
        critical_latency_threshold: u64,
    ) -> (r: bool)
        ensures
            r == (curr_latency >= critical_latency_threshold),
    {
        curr_latency >= critical_latency_threshold
    }

    pub fn is_weight_low(&self, current_weight: u64) -> (r: bool)
        ensures
            r == (current_weight <= self.base_weight),
    {
        current_weight <= self.base_weight
    }

    pub fn is_currently_booting(
        &self,
        critical_latency_threshold: u64,
        curr_latency: u64,
        current_weight: u64,
    ) -> (r: bool)
        ensures
            r == (curr_latency >= critical_latency_threshold
                && current_weight <= self.base_weight),
    {
        self.exceeds_latency_threshold(curr_latency, critical_latency_threshold)
            && self.is_weight_low(current_weight)
    }

    pub fn has_no_wight(&self) -> (r: bool)
        ensures
            r == (self.current_weight == 0),
    {
        self.current_weight == 0
    }

    pub fn has_some_wight(&self) -> (r: bool)
        ensures
            r == (self.current_weight > 0),
    {
        self.current_weight > 0
    }

    /// Capacity check of the eligibility filter. The comparison is
    /// inclusive, so that `!is_max_conn_reached()` is the strict
    /// `active_conn < max_conn` policy.
    pub fn is_max_conn_reached(&self) -> (r: bool)
        ensures
            r == (self.active_conn >= self.max_conn),
    {
        self.active_conn >= self.max_conn
    }
}

impl Clone for Backend {
    /// A cloned backend is equal to the original, field for field.
    fn clone(&self) -> (r: Self)
        ensures
            r == *self,
    {
        Backend {
            id: self.id.clone(),
            addr: self.addr.clone(),
            max_conn: self.max_conn,
            base_weight: self.base_weight,
            current_weight: self.current_weight,
            active_conn: self.active_conn,
            avg_latency_ms: self.avg_latency_ms,
        }
    }
}

} // verus!

pub mod adaptive_least_conn;
pub mod algorithm;
pub mod fairness;
pub mod least_conn;
pub mod round_robin;
pub mod weighted_round_robin;

//! The telemetry the cache writes to: the `prometheus` counter
//! `cache_query{hit_or_miss}` and gauges `cache_items` and `cache_size`.
//! The cache only ever writes to them; nothing it decides reads them back.
use vstd::prelude::*;
use prometheus::{IntCounterVec, IntGauge, Opts};

verus! {

/// The cache's telemetry. Copies of the `prometheus` handles share their values.
///
/// The counter vector's type names a builder that `prometheus` keeps
/// private, so the struct is opaque to proofs and written through the
/// functions below.
#[verifier::external_body]
pub struct CacheMetrics {
    /// A count of cache hits and misses.
    pub queries: IntCounterVec,
    /// The number of items in the cache.
    pub items: IntGauge,
    /// The size in bytes of the values (not keys or expiry info) in the cache.
    pub size: IntGauge,
}

impl CacheMetrics {
    /// Relies on `IntCounterVec::new` and `IntGauge::new`, which fail only on
    /// an empty help text or an invalid metric or label name; the names and
    /// texts here are valid.
    #[verifier::external_body]
    pub fn new() -> (r: Self) {
        CacheMetrics {
            queries: IntCounterVec::new(
                Opts::new("cache_query", "A count of cache hits and misses"),
                &["hit_or_miss"],
            ).unwrap(),
            items: IntGauge::new("cache_items", "The number of item in the cache").unwrap(),
            size: IntGauge::new("cache_size", "The total size in bytes of all values in the cache").unwrap(),
        }
    }
}

/// Relies on `MetricVec::get_metric_with_label_values` and `inc`: the query
/// counter under `label` goes up by one (nothing happens if the vector was
/// made with another number of labels).
#[verifier::external_body]
pub(crate) fn count_query(m: &CacheMetrics, label: &str) {
    if let Ok(counter) = m.queries.get_metric_with_label_values(&[label]) {
        counter.inc()
    }
}

/// Relies on `IntGauge::set`: the item gauge is set to `n`.
#[verifier::external_body]
pub(crate) fn set_items(m: &CacheMetrics, n: usize) {
    m.items.set(n as i64)
}

/// Relies on `IntGauge::add`: the size gauge is raised by `n`.
#[verifier::external_body]
pub(crate) fn add_size(m: &CacheMetrics, n: usize) {
    m.size.add(n as i64)
}

/// Relies on `IntGauge::sub`: the size gauge is lowered by `n`.
#[verifier::external_body]
pub(crate) fn sub_size(m: &CacheMetrics, n: usize) {
    m.size.sub(n as i64)
}

} // verus!

//! A time-to-live key/value cache: string values under string keys, retired
//! by a background sweep once a fixed duration after their last write has
//! passed, with hit/miss/item/size telemetry.

pub mod model;
pub mod store;
pub mod settings;
pub mod queue;
pub mod clock;
pub mod metrics;
pub mod cache;
pub mod laws;

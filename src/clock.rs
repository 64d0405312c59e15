//! The monotonic clock. Instants are kept as nanoseconds since an epoch
//! taken when the cache is made.
use vstd::prelude::*;
use std::time::Instant;

verus! {

#[verifier::external_type_specification]
#[verifier::external_body]
pub struct ExInstant(Instant);

/// Relies on `Instant::now`: the current instant of the monotonic clock.
#[verifier::external_body]
pub(crate) fn instant_now() -> (r: Instant) {
    Instant::now()
}

/// Relies on `Instant::elapsed`: the time since `epoch`, in nanoseconds.
#[verifier::external_body]
pub(crate) fn nanos_since(epoch: &Instant) -> (r: u128) {
    epoch.elapsed().as_nanos()
}

} // verus!

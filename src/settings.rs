use vstd::prelude::*;

verus! {

/// The cache section of the service configuration.
pub struct Cache {
    /// How long, in seconds, a key lives after its most recent write.
    pub key_live_duration: u64,
}

} // verus!

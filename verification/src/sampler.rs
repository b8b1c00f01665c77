//! The analog sampler task's per-cycle work.
//!
//! Each cycle acquires one raw converter code (a suspension point owned by
//! the analog front-end), converts it to centidegrees, publishes the
//! reading to the broadcast signal — exactly one publish per cycle, no
//! buffering of missed reads — and suspends for the fixed inter-sample
//! interval.

use vstd::prelude::*;
use crate::convert::{scaling, spec_scaling, MAX_CODE};
use crate::signal::{publish_model, BroadcastSignal};

verus! {

/// Pause between two samples, in milliseconds.
pub const SAMPLE_INTERVAL_MS: u64 = 2000;

/// One sampler cycle after the raw code is in hand: convert it and publish
/// the reading, overwriting whatever reading was still pending.
pub fn sampler_step(sig: &mut BroadcastSignal, raw: u16) -> (t: i32)
    requires
        raw <= MAX_CODE,
    ensures
        t == spec_scaling(raw as int),
        final(sig).pending() == publish_model(old(sig).pending(), t),
        final(sig).pending() == Some(t),
{
    let t = scaling(raw);
    sig.publish(t);
    t
}

} // verus!

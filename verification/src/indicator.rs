//! The LED indicator consumer.
//!
//! After one startup pulse that proves liveness, the indicator waits on the
//! broadcast signal and pulses once per reading that falls strictly inside
//! the configured comfort band, doing nothing otherwise.  The band decision
//! is a pure function of the sample: no history enters it.

use vstd::prelude::*;

verus! {

/// Lower comfort-band bound, exclusive, in centidegrees (10 degrees).
pub const BAND_LOW_CENTI: i32 = 1000;

/// Upper comfort-band bound, exclusive, in centidegrees (30 degrees).
pub const BAND_HIGH_CENTI: i32 = 3000;

/// Half-period of one visible pulse, in milliseconds: high that long, then
/// low that long.
pub const PULSE_HALF_MS: u64 = 500;

/// Whether a temperature lies strictly inside the comfort band.
pub open spec fn in_comfort_band(t: int) -> bool {
    BAND_LOW_CENTI < t < BAND_HIGH_CENTI
}

/// What the indicator does with one reading.
#[derive(Clone, Copy, PartialEq, Eq, Structural, Debug)]
pub enum IndicatorAction {
    /// One visible pulse: high for the half-period, then low for it.
    Pulse,
    /// Nothing; re-suspend on the next reading.
    Idle,
}

/// Decide the indicator's action for one reading: pulse exactly when the
/// reading lies strictly inside the comfort band.
pub fn indicator_decide(t: i32) -> (r: IndicatorAction)
    ensures
        r == IndicatorAction::Pulse <==> in_comfort_band(t as int),
        r == IndicatorAction::Idle <==> !in_comfort_band(t as int),
{
    if BAND_LOW_CENTI < t && t < BAND_HIGH_CENTI {
        IndicatorAction::Pulse
    } else {
        IndicatorAction::Idle
    }
}

/// The indicator consumer's own state: whether the one startup pulse that
/// proves liveness has been performed yet.
pub struct Indicator {
    pulsed_liveness: bool,
}

impl Indicator {
    /// Whether the startup pulse has been performed.
    pub closed spec fn proved_liveness(self) -> bool {
        self.pulsed_liveness
    }

    /// A fresh indicator has not pulsed yet.
    pub fn new() -> (r: Self)
        ensures
            !r.proved_liveness(),
    {
        Indicator { pulsed_liveness: false }
    }

    /// Whether the startup pulse has been performed.
    pub fn has_proved_liveness(&self) -> (r: bool)
        ensures
            r == self.proved_liveness(),
    {
        self.pulsed_liveness
    }

    /// The one visible startup pulse, performed exactly once, before any
    /// reading is consumed.
    pub fn startup(&mut self) -> (r: IndicatorAction)
        requires
            !old(self).proved_liveness(),
        ensures
            final(self).proved_liveness(),
            r == IndicatorAction::Pulse,
    {
        self.pulsed_liveness = true;
        IndicatorAction::Pulse
    }

    /// Consume one reading: pulse exactly when it lies strictly inside the
    /// comfort band.  No other state enters the decision.
    pub fn on_reading(&self, t: i32) -> (r: IndicatorAction)
        requires
            self.proved_liveness(),
        ensures
            r == IndicatorAction::Pulse <==> in_comfort_band(t as int),
    {
        indicator_decide(t)
    }
}

/// Idempotence law: the band decision depends on the sample alone, so equal
/// samples always yield equal decisions, whatever came before.
pub proof fn lemma_band_decision_pure(a: int, b: int)
    requires
        a == b,
    ensures
        in_comfort_band(a) == in_comfort_band(b),
{
}

} // verus!

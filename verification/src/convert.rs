//! Affine conversion from a raw analog-to-digital code to a temperature.
//!
//! The converter has 12-bit resolution (codes 0..=4095) against a 3300 mV
//! reference, and the sensor maps 0..=3300 mV linearly onto -50..=+125
//! degrees Celsius.  Temperatures are carried as hundredths of a degree
//! (centidegrees) so that the whole pipeline stays in integer arithmetic.

use vstd::prelude::*;

verus! {

/// Reference voltage of the analog front-end, in millivolts.
pub const V_REF_MV: u32 = 3300;

/// Largest raw code a 12-bit converter can produce.
pub const MAX_CODE: u32 = 4095;

/// Width of the sensor's rated range, in centidegrees (175 degrees).
pub const SPAN_CENTI_C: u32 = 17500;

/// Offset of the sensor's rated range below zero, in centidegrees (50 degrees).
pub const OFFSET_CENTI_C: i32 = 5000;

/// Millivolts read on the analog pin for a raw code.
pub open spec fn spec_voltage_mv(raw: int) -> int {
    raw * 3300 / 4095
}

/// Centidegrees Celsius for a voltage in millivolts: 0 mV is -50 degrees,
/// 3300 mV is +125 degrees, linear in between.
pub open spec fn spec_temp_centi_of_mv(mv: int) -> int {
    mv * 17500 / 3300 - 5000
}

/// Centidegrees Celsius for a raw code: voltage first, then temperature.
pub open spec fn spec_scaling(raw: int) -> int {
    spec_temp_centi_of_mv(spec_voltage_mv(raw))
}

/// Derive the pin voltage in millivolts from a raw converter code.
pub fn voltage_mv(raw: u16) -> (mv: u32)
    requires
        raw <= MAX_CODE,
    ensures
        mv == spec_voltage_mv(raw as int),
        mv <= V_REF_MV,
{
    let wide: u32 = (raw as u32) * V_REF_MV;
    wide / MAX_CODE
}

/// Derive the temperature in centidegrees from a pin voltage in millivolts.
pub fn temp_centi_of_mv(mv: u32) -> (t: i32)
    requires
        mv <= V_REF_MV,
    ensures
        t == spec_temp_centi_of_mv(mv as int),
        -5000 <= t <= 12500,
{
    let scaled: u32 = mv * SPAN_CENTI_C;
    (scaled / V_REF_MV) as i32 - OFFSET_CENTI_C
}

/// Full conversion from a raw converter code to centidegrees Celsius.
pub fn scaling(raw: u16) -> (t: i32)
    requires
        raw <= MAX_CODE,
    ensures
        t == spec_scaling(raw as int),
        -5000 <= t <= 12500,
{
    let mv = voltage_mv(raw);
    temp_centi_of_mv(mv)
}

} // verus!

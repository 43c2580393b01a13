use vstd::prelude::*;

verus! {

/// Maximal value returned from adc
pub const ARDUINO_ADC_MAX: u32 = 1023;

/// `Vin` in millivolts of a divider whose output the ADC read as `raw`:
/// the ADC voltage `vref * raw / 1023`, then scaled by `(r1 + r2) / r2`,
/// each division rounding down.
pub open spec fn divider_input_mv(raw: int, r1: int, r2: int, vref_mv: int) -> int {
    ((vref_mv * raw) / 1023) * (r1 + r2) / r2
}

/// Calculates `Vin` for:
/// ```text
///  ┌── Vin
/// ┌┴┐
/// │ │R1
/// └┬┘
///  ├── Vout
/// ┌┴┐
/// │ │R2
/// └┬┘
///  ┴
/// ```
/// Where `Vout` is the voltage the ADC read as `raw`.
///
/// To determine the actual voltage on the pin, this function uses
/// `VREF_MV`, which should be set to the MCU's supply voltage
/// (e.g. `3300` for 3.3 V or `5000` for 5 V). The result is truncated to
/// 16 bits.
pub fn reverse_voltage_divider_mv<const R1: u32, const R2: u32, const VREF_MV: u32>(
    raw: u16,
) -> (r: u16)
    requires
        VREF_MV * raw <= u32::MAX,
        R1 + R2 <= u32::MAX,
        ((VREF_MV * raw) / 1023) * (R1 + R2) <= u32::MAX,
        R2 > 0,
    ensures
        r == divider_input_mv(raw as int, R1 as int, R2 as int, VREF_MV as int) as u16,
{
    let raw = raw as u32;

    // Voltage at ADC pin
    let vadc = (VREF_MV * raw) / ARDUINO_ADC_MAX;

    // Reverse voltage divider
    (vadc * (R1 + R2) / R2) as u16
}

} // verus!

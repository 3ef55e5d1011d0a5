//! Pure conversions between raw 16-bit register contents and engineering
//! units, and the validation and packing of alert thresholds.
//!
//! Floating point is kept out of the driver: every quantity is an exact
//! scaled integer, with the scale chosen so that one device LSB is a whole
//! number of units.

use vstd::arithmetic::div_mod::lemma_div_multiples_vanish;
use vstd::arithmetic::div_mod::lemma_fundamental_div_mod;
use vstd::prelude::*;

verus! {

/// What `convert_to_time` returns: the time in milliseconds.
/// One LSB is 5.625 s, which is exactly 5625 ms.
pub open spec fn spec_convert_to_time(raw: u16) -> int {
    raw * 5625
}

/// Time conversion: raw register value to milliseconds (one LSB = 5625 ms).
pub fn convert_to_time(raw: u16) -> (r: u32)
    ensures
        r == spec_convert_to_time(raw),
{
    raw as u32 * 5625
}

/// What `convert_to_voltage` returns: the voltage in nanovolts.
/// One LSB is 0.078125 mV, which is exactly 78125 nV.
pub open spec fn spec_convert_to_voltage(raw: u16) -> int {
    raw * 78125
}

/// Voltage conversion: raw register value to nanovolts (one LSB = 78125 nV).
pub fn convert_to_voltage(raw: u16) -> (r: u64)
    ensures
        r == spec_convert_to_voltage(raw),
{
    raw as u64 * 78125
}

/// What `convert_to_percentage` returns: the state of charge in units of
/// 10^-8 percent. One LSB is 1/256 %, which is exactly 390625 such units.
pub open spec fn spec_convert_to_percentage(raw: u16) -> int {
    raw * 390625
}

/// State-of-charge conversion: raw register value to 10^-8 percent.
pub fn convert_to_percentage(raw: u16) -> (r: u64)
    ensures
        r == spec_convert_to_percentage(raw),
{
    raw as u64 * 390625
}

/// The signed number a raw 16-bit register value encodes in two's
/// complement.
pub open spec fn spec_as_signed(raw: u16) -> i16 {
    if raw < 0x8000 {
        raw as i16
    } else {
        (raw - 0x10000) as i16
    }
}

/// Reinterpret a raw 16-bit register value as the signed number the
/// device encodes in two's complement.
pub fn as_signed(raw: u16) -> (r: i16)
    ensures
        r == spec_as_signed(raw),
{
    if raw < 0x8000 {
        raw as i16
    } else {
        -((0xFFFFu16 - raw) as i16) - 1
    }
}

/// What `convert_to_temperature` returns: the temperature in units of
/// 10^-8 degrees Celsius. One LSB is 1/256 degree, exactly 390625 such units.
pub open spec fn spec_convert_to_temperature(raw: i16) -> int {
    raw * 390625
}

/// Temperature conversion: raw register value, read as a signed 16-bit
/// number, to 10^-8 degrees Celsius. The representable range is
/// -128 to just under +128 degrees.
pub fn convert_to_temperature(raw: i16) -> (r: i64)
    ensures
        r == spec_convert_to_temperature(raw),
{
    raw as i64 * 390625
}

/// Largest temperature the device can report, in 10^-8 degrees Celsius:
/// 32767/256 degrees, or 127.99609375 degrees.
pub const TEMPERATURE_MAX_E8: i64 = 12799609375;

/// Smallest temperature the device can report, in 10^-8 degrees Celsius:
/// -32768/256 degrees, or -128 degrees.
pub const TEMPERATURE_MIN_E8: i64 = -12800000000;

/// What `encode_temperature` returns: the raw register value for a
/// temperature given in 10^-8 degrees Celsius, truncated toward zero
/// to the device's 1/256-degree grid.
pub open spec fn spec_encode_temperature(t: int) -> int {
    if t >= 0 {
        t / 390625
    } else {
        -((-t) / 390625)
    }
}

/// Temperature encoding: a temperature in 10^-8 degrees Celsius to the raw
/// signed 16-bit register value, truncating toward zero to the device grid.
pub fn encode_temperature(t: i64) -> (r: i16)
    requires
        TEMPERATURE_MIN_E8 <= t <= TEMPERATURE_MAX_E8,
    ensures
        r == spec_encode_temperature(t as int),
{
    if t >= 0 {
        let q: u64 = t as u64 / 390625;
        assert(q <= 32767) by {
            assert(t as u64 / 390625 <= 12799609375u64 / 390625) by (nonlinear_arith)
                requires
                    t as u64 <= 12799609375u64,
            ;
        }
        q as i16
    } else {
        let q: u64 = (-t) as u64 / 390625;
        assert(q <= 32768) by {
            assert((-t) as u64 / 390625 <= 12800000000u64 / 390625) by (nonlinear_arith)
                requires
                    (-t) as u64 <= 12800000000u64,
            ;
        }
        (-(q as i32)) as i16
    }
}

/// Encoding then decoding a representable temperature gives the temperature
/// back to within one device LSB (390625 units, 1/256 degree): the encoding
/// truncates toward zero and loses less than one grid step.
pub proof fn lemma_temperature_round_trip(t: int)
    requires
        TEMPERATURE_MIN_E8 <= t <= TEMPERATURE_MAX_E8,
    ensures
        -32768 <= spec_encode_temperature(t) <= 32767,
        spec_convert_to_temperature(spec_encode_temperature(t) as i16) - t < 390625,
        t - spec_convert_to_temperature(spec_encode_temperature(t) as i16) < 390625,
{
    if t >= 0 {
        let q = t / 390625;
        lemma_fundamental_div_mod(t, 390625);
        assert(0 <= t % 390625 < 390625);
        assert(q * 390625 == t - t % 390625);
        assert(q <= 32767) by (nonlinear_arith)
            requires
                q * 390625 <= TEMPERATURE_MAX_E8 as int,
                q >= 0,
        ;
        assert(q >= 0) by {
            vstd::arithmetic::div_mod::lemma_div_pos_is_pos(t, 390625);
        }
    } else {
        let u = -t;
        let q = u / 390625;
        lemma_fundamental_div_mod(u, 390625);
        assert(0 <= u % 390625 < 390625);
        assert(q * 390625 == u - u % 390625);
        assert(q >= 0) by {
            vstd::arithmetic::div_mod::lemma_div_pos_is_pos(u, 390625);
        }
        assert(q <= 32768) by (nonlinear_arith)
            requires
                q * 390625 <= 12800000000,
                q >= 0,
        ;
    }
}

/// Decoding a raw temperature and encoding the result gives back exactly the
/// raw value: every raw register value lies on the device grid.
pub proof fn lemma_temperature_exact_round_trip(raw: i16)
    ensures
        spec_encode_temperature(spec_convert_to_temperature(raw)) == raw,
{
    if raw >= 0 {
        lemma_div_multiples_vanish(raw as int, 390625);
    } else {
        lemma_div_multiples_vanish(-(raw as int), 390625);
        assert(-(raw * 390625) == (-raw) * 390625) by (nonlinear_arith);
    }
}

/// What `convert_to_capacity` returns: the capacity in microampere-hours,
/// rounded down. One LSB is 5.0/r_sense mAh (sense resistance in milliohm),
/// which is exactly 5000/r_sense microampere-hours.
pub open spec fn spec_convert_to_capacity(raw: u16, r_sense_mohm: u32) -> int {
    (raw * 5000) / (r_sense_mohm as int)
}

/// Capacity conversion: raw register value to microampere-hours, rounded
/// down, for the given sense resistance in milliohm.
pub fn convert_to_capacity(raw: u16, r_sense_mohm: u32) -> (r: u64)
    requires
        r_sense_mohm >= 1,
    ensures
        r == spec_convert_to_capacity(raw, r_sense_mohm),
{
    raw as u64 * 5000 / (r_sense_mohm as u64)
}

/// What `convert_to_current` returns: the current in nanoamperes, rounded
/// toward zero; discharge is negative. One LSB is 1.5625/r_sense mA (sense
/// resistance in milliohm), which is exactly 1562500/r_sense nanoamperes.
pub open spec fn spec_convert_to_current(raw: i16, r_sense_mohm: u32) -> int {
    if raw >= 0 {
        (raw * 1562500) / (r_sense_mohm as int)
    } else {
        -(((-raw) * 1562500) / (r_sense_mohm as int))
    }
}

/// Current conversion: raw register value, read as a signed 16-bit number,
/// to nanoamperes, rounded toward zero, for the given sense resistance in
/// milliohm.
pub fn convert_to_current(raw: i16, r_sense_mohm: u32) -> (r: i64)
    requires
        r_sense_mohm >= 1,
    ensures
        r == spec_convert_to_current(raw, r_sense_mohm),
{
    if raw >= 0 {
        let mag: u64 = raw as u64 * 1562500 / (r_sense_mohm as u64);
        assert(mag <= 32767u64 * 1562500) by {
            vstd::arithmetic::div_mod::lemma_div_nonincreasing(
                raw as u64 * 1562500,
                r_sense_mohm as int,
            );
        }
        mag as i64
    } else {
        let mag: u64 = (-(raw as i32)) as u64 * 1562500 / (r_sense_mohm as u64);
        assert(mag <= 32768u64 * 1562500) by {
            vstd::arithmetic::div_mod::lemma_div_nonincreasing(
                (-(raw as i32)) as u64 * 1562500,
                r_sense_mohm as int,
            );
        }
        -(mag as i64)
    }
}

/// One voltage-alert-threshold LSB in millivolts: each threshold byte
/// stands for a multiple of 0.02 V.
pub const VALRTTH_LSB_MV: i32 = 20;

/// Largest voltage-alert threshold in millivolts: 255 * 20 mV, or 5.1 V.
pub const VALRTTH_MAX_MV: i32 = 5100;

/// A voltage-alert threshold, given in millivolts, is valid when it is an
/// exact multiple of 20 mV between 0 and 5100 mV inclusive.
pub open spec fn spec_is_valid_voltage_threshold(mv: int) -> bool {
    &&& 0 <= mv
    &&& mv <= 5100
    &&& mv % 20 == 0
}

/// Whether a voltage-alert threshold in millivolts can be encoded exactly:
/// a multiple of 20 mV within 0 to 5100 mV.
pub fn is_valid_voltage_threshold(mv: i32) -> (r: bool)
    ensures
        r == spec_is_valid_voltage_threshold(mv as int),
{
    0 <= mv && mv <= VALRTTH_MAX_MV && mv % VALRTTH_LSB_MV == 0
}

/// What an alert-threshold register holds: the maximum bound's byte in the
/// high half, the minimum bound's byte in the low half.
pub open spec fn spec_threshold_code(min_byte: u8, max_byte: u8) -> u16 {
    (max_byte * 256 + min_byte) as u16
}

/// The minimum bound's byte of an alert-threshold register: the low half.
pub open spec fn spec_threshold_min_byte(code: u16) -> u8 {
    (code % 256) as u8
}

/// The maximum bound's byte of an alert-threshold register: the high half.
pub open spec fn spec_threshold_max_byte(code: u16) -> u8 {
    (code / 256) as u8
}

/// Pack two threshold bytes into one register value, maximum bound in the
/// high byte and minimum bound in the low byte.
pub fn threshold_code(min_byte: u8, max_byte: u8) -> (r: u16)
    ensures
        r == spec_threshold_code(min_byte, max_byte),
{
    max_byte as u16 * 256 + min_byte as u16
}

/// The minimum bound's byte of an alert-threshold register value.
pub fn threshold_min_byte(code: u16) -> (r: u8)
    ensures
        r == spec_threshold_min_byte(code),
{
    (code % 256) as u8
}

/// The maximum bound's byte of an alert-threshold register value.
pub fn threshold_max_byte(code: u16) -> (r: u8)
    ensures
        r == spec_threshold_max_byte(code),
{
    (code / 256) as u8
}

/// Packing two threshold bytes and taking them apart again gives back
/// exactly the bytes that were packed.
pub proof fn lemma_threshold_code_round_trip(min_byte: u8, max_byte: u8)
    ensures
        spec_threshold_min_byte(spec_threshold_code(min_byte, max_byte)) == min_byte,
        spec_threshold_max_byte(spec_threshold_code(min_byte, max_byte)) == max_byte,
{
    let code = max_byte * 256 + min_byte;
    assert(code % 256 == min_byte && code / 256 == max_byte) by (nonlinear_arith)
        requires
            code == max_byte * 256 + min_byte,
            0 <= min_byte < 256,
            0 <= max_byte < 256,
    ;
}

/// The byte a signed threshold bound is stored as: its two's-complement
/// image.
pub open spec fn spec_as_byte(v: i8) -> u8 {
    if v >= 0 {
        v as u8
    } else {
        (v + 0x100) as u8
    }
}

/// Store a signed threshold bound as its two's-complement byte.
pub fn as_byte(v: i8) -> (r: u8)
    ensures
        r == spec_as_byte(v),
{
    if v >= 0 {
        v as u8
    } else {
        ((v as i16) + 0x100) as u8
    }
}

/// The signed threshold bound a stored byte encodes in two's complement.
pub open spec fn spec_as_signed_byte(b: u8) -> i8 {
    if b < 0x80 {
        b as i8
    } else {
        (b - 0x100) as i8
    }
}

/// Read a signed threshold bound back out of its two's-complement byte.
pub fn as_signed_byte(b: u8) -> (r: i8)
    ensures
        r == spec_as_signed_byte(b),
{
    if b < 0x80 {
        b as i8
    } else {
        -((0xFFu8 - b) as i8) - 1
    }
}

/// Storing a signed threshold bound and reading it back gives the bound:
/// the two's-complement byte encoding is exact.
pub proof fn lemma_signed_byte_round_trip(v: i8)
    ensures
        spec_as_signed_byte(spec_as_byte(v)) == v,
{
}

/// The voltage-alert register value for a pair of bounds in millivolts:
/// each bound divided down to its 20 mV byte, maximum in the high byte.
pub open spec fn spec_voltage_threshold_code(min_mv: int, max_mv: int) -> u16
    recommends
        spec_is_valid_voltage_threshold(min_mv),
        spec_is_valid_voltage_threshold(max_mv),
{
    spec_threshold_code((min_mv / 20) as u8, (max_mv / 20) as u8)
}

/// Writing a valid pair of voltage bounds and reading the register back
/// gives exactly the bounds that were written: valid bounds sit on the
/// 20 mV grid, so the quantization loses nothing.
pub proof fn lemma_voltage_threshold_round_trip(min_mv: int, max_mv: int)
    ensures
        spec_is_valid_voltage_threshold(min_mv) && spec_is_valid_voltage_threshold(max_mv)
            ==> spec_threshold_min_byte(spec_voltage_threshold_code(min_mv, max_mv)) * 20 == min_mv
            && spec_threshold_max_byte(spec_voltage_threshold_code(min_mv, max_mv)) * 20 == max_mv,
{
    if spec_is_valid_voltage_threshold(min_mv) && spec_is_valid_voltage_threshold(max_mv) {
        lemma_fundamental_div_mod(min_mv, 20);
        lemma_fundamental_div_mod(max_mv, 20);
        assert(0 <= min_mv / 20 < 256 && 0 <= max_mv / 20 < 256) by (nonlinear_arith)
            requires
                20 * (min_mv / 20) == min_mv && 20 * (max_mv / 20) == max_mv,
                0 <= min_mv <= 5100 && 0 <= max_mv <= 5100,
        ;
        lemma_threshold_code_round_trip((min_mv / 20) as u8, (max_mv / 20) as u8);
    }
}

} // verus!

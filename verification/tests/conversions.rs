//! Unit conversions, threshold validation and the codecs, checked on
//! concrete values against the device's datasheet formulas.

use max17320::conversion::as_byte;
use max17320::conversion::as_signed;
use max17320::conversion::as_signed_byte;
use max17320::conversion::encode_temperature;
use max17320::conversion::threshold_code;
use max17320::conversion::threshold_max_byte;
use max17320::conversion::threshold_min_byte;
use max17320::convert_to_capacity;
use max17320::convert_to_current;
use max17320::convert_to_percentage;
use max17320::convert_to_temperature;
use max17320::convert_to_time;
use max17320::convert_to_voltage;
use max17320::is_valid_voltage_threshold;

#[test]
fn max_temp_conversion() {
    let max_temp_raw: u16 = 0b01111111_11111111;
    let temp = ((convert_to_temperature(as_signed(max_temp_raw)) as f64) / 1e8) as f32;
    println!("temp {}", temp);
    assert_eq!(temp, 127.99609)
}

#[test]
fn min_temp_conversion() {
    let min_temp_raw: u16 = 0b10000000_00000000;
    let temp = ((convert_to_temperature(as_signed(min_temp_raw)) as f64) / 1e8) as f32;
    println!("temp {}", temp);
    assert_eq!(temp, -128.0)
}

#[test]
fn valid_voltage_threshold() {
    assert!(is_valid_voltage_threshold(5100))
}

#[test]
fn max_temp_is_exact() {
    // 0x7FFF LSBs of 1/256 degree are exactly 127.99609375 degrees.
    let temp = convert_to_temperature(0x7FFF);
    assert_eq!(temp, 12799609375);
    assert_eq!(temp as f64 / 1e8, 127.99609375);
}

#[test]
fn min_temp_is_exact() {
    let temp = convert_to_temperature(-0x8000);
    assert_eq!(temp, -12800000000);
    assert_eq!(temp as f64 / 1e8, -128.0);
}

#[test]
fn voltage_threshold_edges() {
    assert!(is_valid_voltage_threshold(0));
    assert!(is_valid_voltage_threshold(20));
    assert!(is_valid_voltage_threshold(5100));
    assert!(!is_valid_voltage_threshold(5120));
    assert!(!is_valid_voltage_threshold(-20));
    assert!(!is_valid_voltage_threshold(10));
}

#[test]
fn voltage_conversion_exact() {
    // 12800 LSBs of 78.125 microvolts are exactly one volt.
    assert_eq!(convert_to_voltage(12800), 1_000_000_000);
    assert_eq!(convert_to_voltage(0), 0);
    assert_eq!(convert_to_voltage(1), 78_125);
    assert_eq!(convert_to_voltage(0xFFFF), 65_535 * 78_125);
}

#[test]
fn percentage_conversion_exact() {
    // 256 LSBs are exactly one percent.
    assert_eq!(convert_to_percentage(256), 100_000_000);
    assert_eq!(convert_to_percentage(1), 390_625);
    assert_eq!(convert_to_percentage(0), 0);
}

#[test]
fn time_conversion_exact() {
    // One LSB is 5.625 seconds, exactly 5625 milliseconds.
    assert_eq!(convert_to_time(1), 5625);
    assert_eq!(convert_to_time(2), 11250);
    assert_eq!(convert_to_time(0xFFFF), 65_535 * 5625);
}

#[test]
fn capacity_conversion_exact() {
    // With a 5 milliohm sense resistor one LSB is exactly one
    // milliampere-hour.
    assert_eq!(convert_to_capacity(100, 5), 100_000);
    assert_eq!(convert_to_capacity(0, 5), 0);
    // With 3 milliohm the result rounds down to whole microampere-hours.
    assert_eq!(convert_to_capacity(1, 3), 1666);
}

#[test]
fn current_conversion_exact() {
    // With a 5 milliohm sense resistor one LSB is exactly 312500
    // nanoamperes; discharge currents come out negative.
    assert_eq!(convert_to_current(1, 5), 312_500);
    assert_eq!(convert_to_current(-1, 5), -312_500);
    assert_eq!(convert_to_current(-100, 5), -31_250_000);
    assert_eq!(convert_to_current(0, 5), 0);
}

#[test]
fn signed_reinterpretation() {
    assert_eq!(as_signed(0x0000), 0);
    assert_eq!(as_signed(0x7FFF), 32767);
    assert_eq!(as_signed(0x8000), -32768);
    assert_eq!(as_signed(0xFFFF), -1);
}

#[test]
fn temperature_encode_decode_round_trip() {
    // Encoding a temperature to the raw grid and decoding it again
    // stays within one LSB (390625 units of 1e-8 degrees).
    let samples: [i64; 7] =
        [0, 12_799_609_375, -12_800_000_000, 2_512_345_678, -2_512_345_678, 390_625, -390_625];
    for &t in samples.iter() {
        let back = convert_to_temperature(encode_temperature(t));
        assert!((back - t).abs() < 390_625, "t {} back {}", t, back);
    }
    // Decoding a raw value and encoding the result is exact.
    let raws: [i16; 5] = [0, 1, -1, 32767, -32768];
    for &raw in raws.iter() {
        assert_eq!(encode_temperature(convert_to_temperature(raw)), raw);
    }
}

#[test]
fn threshold_byte_codec() {
    let code = threshold_code(0x34, 0x12);
    assert_eq!(code, 0x1234);
    assert_eq!(threshold_min_byte(code), 0x34);
    assert_eq!(threshold_max_byte(code), 0x12);
}

#[test]
fn signed_byte_codec() {
    assert_eq!(as_byte(-128), 0x80);
    assert_eq!(as_byte(-1), 0xFF);
    assert_eq!(as_byte(127), 0x7F);
    assert_eq!(as_signed_byte(0x80), -128);
    assert_eq!(as_signed_byte(0xFF), -1);
    assert_eq!(as_signed_byte(0x7F), 127);
    for v in -128..=127i16 {
        let v = v as i8;
        assert_eq!(as_signed_byte(as_byte(v)), v);
    }
}

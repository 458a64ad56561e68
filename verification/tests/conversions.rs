//! Unit conversion tests: the resolver's register/physical conversions in
//! both directions, their round trips, and the per-register conversion
//! helpers.

use max1726x::max17263::registers::Max17263RegisterResolver;
use max1726x::registers::RCell;
use max1726x::registers::Tte;
use max1726x::registers::Ttf;
use max1726x::registers::VFocv;
use max1726x::traits::BitField;
use max1726x::traits::RegisterResolver;

fn resolver() -> Max17263RegisterResolver {
    // A 0.010 Ohm sense resistor.
    Max17263RegisterResolver::new(10)
}

#[test]
fn test_register_to_capacity() {
    let resolver = resolver();

    assert_eq!(resolver.register_to_capacity(0x0000), 0);
    // Full scale: 327.675 mVh over the 0.010 Ohm sense resistor, i.e.
    // 32.7675 Ah, in microamp-hours.
    assert_eq!(resolver.register_to_capacity(0xFFFF), 32_767_500);
    assert!(((resolver.register_to_capacity(0xFFFF) as f64) * 1e-6 - 327.675e-3 / 0.010).abs() < 1e-6);
}

#[test]
fn test_register_to_percentage() {
    let resolver = resolver();

    assert_eq!(resolver.register_to_percentage(0x0000), 0);
    // Full scale: 255.9961 percent, in thousandths of a percent.
    assert_eq!(resolver.register_to_percentage(0xFFFF), 255_996);
    assert!(((resolver.register_to_percentage(0xFFFF) as f64) * 1e-3 - 255.9961).abs() < 1e-3);
}

#[test]
fn test_register_to_voltage() {
    let resolver = resolver();

    assert_eq!(resolver.register_to_voltage(0x0000), 0);
    // Full scale: 5.11992 V, in microvolts.
    assert_eq!(resolver.register_to_voltage(0xFFFF), 5_119_922);
    assert!(((resolver.register_to_voltage(0xFFFF) as f64) * 1e-6 - 5.11992).abs() < 1e-5);
}

#[test]
fn test_register_to_current() {
    let resolver = resolver();

    // Minimum: -51.2 mV over 0.010 Ohm, i.e. -5.12 A, in microamps.
    assert_eq!(resolver.register_to_current(i16::MIN as u16), -5_120_000);
    assert!(((resolver.register_to_current(i16::MIN as u16) as f64) * 1e-6 + 51.2e-3 / 0.010).abs() < 1e-5);
    // Maximum: 51.1984 mV over 0.010 Ohm, i.e. about 5.11984 A.
    assert_eq!(resolver.register_to_current(i16::MAX as u16), 5_119_844);
    assert!(((resolver.register_to_current(i16::MAX as u16) as f64) * 1e-6 - 51.1984e-3 / 0.010).abs() < 1e-5);
}

#[test]
fn test_register_to_temperature() {
    let resolver = resolver();

    assert_eq!(resolver.register_to_temperature(0x0000), 0);
    // Maximum: 127.996 degrees Celsius, in thousandths of a degree.
    assert_eq!(resolver.register_to_temperature(0x7FFF), 127_996);
    assert!(((resolver.register_to_temperature(0x7FFF) as f64) * 1e-3 - 127.996).abs() < 1e-3);
    // Minimum: exactly -128 degrees Celsius.
    assert_eq!(resolver.register_to_temperature(0x8000), -128_000);
    assert!(((resolver.register_to_temperature(0x8000) as f64) * 1e-3 - -128.0).abs() < 1e-3);
}

#[test]
fn test_register_to_resistance() {
    let resolver = resolver();

    assert_eq!(resolver.register_to_resistance(0x0000), 0);
    // Full scale: 15.99976 Ohm, in microohms.
    assert_eq!(resolver.register_to_resistance(0xFFFF), 15_999_756);
    assert!(((resolver.register_to_resistance(0xFFFF) as f64) * 1e-6 - 15.99976).abs() < 1e-5);
}

#[test]
fn test_register_to_time() {
    let resolver = resolver();

    assert_eq!(resolver.register_to_time(0x0000), 0);
    // Full scale: 102.3984 hours, in milliseconds.
    assert_eq!(resolver.register_to_time(0xFFFF), 368_634_375);
    assert!(((resolver.register_to_time(0xFFFF) as f64) * 1e-3 - 102.3984 * 3600.0).abs() < 1.0);
}

#[test]
fn register_round_trips_unsigned() {
    let resolver = resolver();

    // Converting a register word to a physical quantity and back recovers
    // the word exactly, across the representable range.
    for reg in [0x0000u16, 0x0001, 0x00FF, 0x1234, 0x8000, 0xFFFE, 0xFFFF] {
        assert_eq!(resolver.capacity_to_register(resolver.register_to_capacity(reg)), reg);
        assert_eq!(resolver.percentage_to_register(resolver.register_to_percentage(reg)), reg);
        assert_eq!(resolver.voltage_to_register(resolver.register_to_voltage(reg)), reg);
        assert_eq!(resolver.resistance_to_register(resolver.register_to_resistance(reg)), reg);
        assert_eq!(resolver.time_to_register(resolver.register_to_time(reg)), reg);
    }
}

#[test]
fn register_round_trips_signed() {
    let resolver = resolver();

    // Two's-complement words round-trip as well, including the extremes
    // and zero.
    for reg in [0x0000u16, 0x0001, 0x7FFF, 0x8000, 0x8001, 0xFFFF] {
        assert_eq!(resolver.current_to_register(resolver.register_to_current(reg)), reg);
        assert_eq!(resolver.temperature_to_register(resolver.register_to_temperature(reg)), reg);
    }
}

#[test]
fn physical_round_trips_within_one_step() {
    let resolver = resolver();

    // Converting a physical value to a register word and back reproduces
    // it to within one conversion step (the voltage step is 78.125
    // microvolts, the temperature step 1000/256 millidegrees).
    let volts: [u32; 4] = [0, 1_500_000, 3_700_000, 5_119_922];
    for uv in volts {
        let back = resolver.register_to_voltage(resolver.voltage_to_register(uv));
        assert!((back as i64 - uv as i64).abs() <= 79);
    }
    let temps: [i32; 5] = [-128_000, -40_000, 0, 25_000, 127_996];
    for mc in temps {
        let back = resolver.register_to_temperature(resolver.temperature_to_register(mc));
        assert!((back as i64 - mc as i64).abs() <= 4);
    }
}

#[test]
fn inverse_conversions_clamp() {
    let resolver = resolver();

    // Out-of-range physical values saturate to the representable extreme,
    // never wrap.
    assert_eq!(resolver.voltage_to_register(u32::MAX), 0xFFFF);
    assert_eq!(resolver.capacity_to_register(u32::MAX), 0xFFFF);
    assert_eq!(resolver.current_to_register(i32::MAX), 0x7FFF);
    assert_eq!(resolver.current_to_register(i32::MIN), 0x8000);
    assert_eq!(resolver.temperature_to_register(i32::MAX), 0x7FFF);
    assert_eq!(resolver.temperature_to_register(i32::MIN), 0x8000);
    assert_eq!(resolver.time_to_register(u32::MAX), 0xFFFF);
}

#[test]
fn sense_resistor_sensitivity() {
    // Halving the sense resistance doubles the converted current and
    // capacity for the same raw register word.
    let halved = Max17263RegisterResolver::new(10);
    let doubled = Max17263RegisterResolver::new(20);

    assert_eq!(halved.register_to_capacity(0x1000), 2 * doubled.register_to_capacity(0x1000));
    assert_eq!(halved.register_to_current(64), 2 * doubled.register_to_current(64));
    // A negative (discharge) current scales the same way.
    let neg: u16 = (-64i16) as u16;
    assert_eq!(halved.register_to_current(neg), 2 * doubled.register_to_current(neg));
}

#[test]
fn rcell_conversion() {
    // The initial value from the datasheet (160 milliohm).
    let rcell = RCell::from(0x0290);
    assert_eq!(rcell.to_milliohms(), 160);

    // Round-trip conversion, within the rounding of the register step.
    let rcell = RCell::from_milliohms(160);
    assert!(rcell.to_milliohms() > 159);
    assert!(rcell.to_milliohms() < 161);
}

#[test]
fn vfocv_conversion() {
    // A known voltage value (3.7 V, i.e. 3700 mV) survives the round trip.
    let vfocv = VFocv::from_millivolts(3700);
    assert_eq!(vfocv.to_millivolts(), 3700);

    let test_voltage: u32 = 4200;
    let vfocv = VFocv::from_millivolts(test_voltage);
    assert_eq!(vfocv.to_millivolts(), test_voltage);
}

#[test]
fn ttf_conversion() {
    // One hour.
    let ttf = Ttf::from_seconds(3600);
    assert_eq!(ttf.to_hours(), 1);
    assert_eq!(ttf.to_minutes(), 60);
    assert_eq!(ttf.to_seconds(), 3600);

    // Thirty minutes.
    let test_seconds: u32 = 1800;
    let ttf = Ttf::from_seconds(test_seconds);
    assert_eq!(ttf.to_seconds(), test_seconds);
    assert_eq!(ttf.to_minutes(), 30);
}

#[test]
fn tte_conversion() {
    // Two hours.
    let tte = Tte::from_seconds(7200);
    assert_eq!(tte.to_hours(), 2);
    assert_eq!(tte.to_minutes(), 120);
    assert_eq!(tte.to_seconds(), 7200);

    // Forty-five minutes.
    let test_seconds: u32 = 2700;
    let tte = Tte::from_seconds(test_seconds);
    assert_eq!(tte.to_seconds(), test_seconds);
    assert_eq!(tte.to_minutes(), 45);
}

#[test]
fn time_saturates() {
    // A duration beyond the register's range saturates to full scale.
    let ttf = Ttf::from_seconds(400_000);
    assert_eq!(ttf.time(), 0xFFFF);
    let tte = Tte::from_seconds(400_000);
    assert_eq!(tte.to_word(), 0xFFFF);
}

//! The MAX17263's measurement register addresses, its register/physical
//! unit conversions, and its LED driver configuration registers.
//!
//! Conversions follow the datasheet's step sizes exactly, in fixed-point
//! integer units: each quantity scales by a rational `num / den` per
//! register count, the forward direction rounds to the nearest output unit,
//! and the inverse direction rounds to the nearest register count and
//! saturates to the representable range.

use vstd::prelude::*;

use crate::rounding::lemma_physical_round_trip;
use crate::rounding::lemma_physical_round_trip_signed;
use crate::rounding::lemma_round_div_bounds;
use crate::rounding::lemma_register_round_trip;
use crate::rounding::lemma_round_div_exact;
use crate::rounding::lemma_round_div_halving;
use crate::rounding::lemma_round_div_le_num;
use crate::rounding::lemma_round_div_neg;
use crate::rounding::lemma_round_div_upper;
use crate::rounding::round_div;
use crate::traits::BitField;
use crate::traits::Model;
use crate::traits::RegisterResolver;

verus! {

/// The two's-complement value a register word encodes.
pub open spec fn as_signed(word: u16) -> int {
    if word < 0x8000 {
        word as int
    } else {
        word - 0x10000
    }
}

/// The register word encoding a two's-complement value.
pub open spec fn word_of_signed(v: int) -> u16
    recommends
        -0x8000 <= v < 0x8000,
{
    if v >= 0 {
        v as u16
    } else {
        (v + 0x10000) as u16
    }
}

/// Saturation to the unsigned 16-bit range.
pub open spec fn clamp_u16(v: int) -> u16 {
    if v < 0 {
        0
    } else if v > 0xFFFF {
        0xFFFF
    } else {
        v as u16
    }
}

/// Saturation to the signed 16-bit range.
pub open spec fn clamp_i16(v: int) -> int {
    if v < -0x8000 {
        -0x8000
    } else if v > 0x7FFF {
        0x7FFF
    } else {
        v
    }
}

/// Unit conversions for the MAX17263, calibrated by the application's sense
/// resistor: current and capacity step sizes scale inversely with its
/// resistance.
#[derive(Clone, Copy, Debug)]
pub struct Max17263RegisterResolver {
    r_sense_milliohms: u32,
}

impl Max17263RegisterResolver {
    /// The sense resistor is the one runtime calibration parameter; it is
    /// always at least one milliohm.
    #[verifier::type_invariant]
    pub closed spec fn wf(&self) -> bool {
        self.r_sense_milliohms >= 1
    }

    /// The configured sense resistance, in milliohms.
    pub closed spec fn spec_r_sense_milliohms(&self) -> u32 {
        self.r_sense_milliohms
    }

    /// Builds a resolver for the given sense resistance, in milliohms.
    pub fn new(r_sense_milliohms: u32) -> (r: Self)
        requires
            r_sense_milliohms >= 1,
        ensures
            r.spec_r_sense_milliohms() == r_sense_milliohms,
    {
        Max17263RegisterResolver { r_sense_milliohms }
    }

    /// The configured sense resistance, in milliohms.
    pub fn r_sense_milliohms(&self) -> (r: u32)
        ensures
            r == self.spec_r_sense_milliohms(),
            r >= 1,
    {
        proof {
            use_type_invariant(self);
        }
        self.r_sense_milliohms
    }

}

impl RegisterResolver for Max17263RegisterResolver {
    /// Capacity step: 5.0 microvolt-hours across the sense resistor, that
    /// is 5000 / Rsense(milliohm) microamp-hours per count.
    open spec fn capacity_uah(&self, register: u16) -> int {
        round_div(register * 5000, self.spec_r_sense_milliohms() as int)
    }

    open spec fn capacity_register(&self, micro_amp_hours: u32) -> u16 {
        clamp_u16(round_div(micro_amp_hours * self.spec_r_sense_milliohms(), 5000))
    }

    /// Percentage step: 1/256 of a percent, that is 125/32 thousandths of a
    /// percent per count.
    open spec fn percentage_mpct(&self, register: u16) -> int {
        round_div(register * 125, 32)
    }

    open spec fn percentage_register(&self, milli_percent: u32) -> u16 {
        clamp_u16(round_div(milli_percent * 32, 125))
    }

    /// Voltage step: 78.125 microvolts, that is 625/8 microvolts per count.
    open spec fn voltage_uv(&self, register: u16) -> int {
        round_div(register * 625, 8)
    }

    open spec fn voltage_register(&self, micro_volts: u32) -> u16 {
        clamp_u16(round_div(micro_volts * 8, 625))
    }

    /// Current step: 1.5625 microvolts across the sense resistor, that is
    /// 3125 / (2 Rsense(milliohm)) microamps per count, two's complement.
    open spec fn current_ua(&self, register: u16) -> int {
        round_div(as_signed(register) * 3125, 2 * self.spec_r_sense_milliohms())
    }

    open spec fn current_register(&self, micro_amps: i32) -> u16 {
        word_of_signed(
            clamp_i16(round_div(micro_amps * 2 * self.spec_r_sense_milliohms(), 3125)),
        )
    }

    /// Temperature step: 1/256 of a degree Celsius, that is 125/32
    /// thousandths of a degree per count, two's complement.
    open spec fn temperature_mc(&self, register: u16) -> int {
        round_div(as_signed(register) * 125, 32)
    }

    open spec fn temperature_register(&self, milli_celsius: i32) -> u16 {
        word_of_signed(clamp_i16(round_div(milli_celsius * 32, 125)))
    }

    /// Resistance step: 1/4096 of an Ohm, that is 15625/64 microohms per
    /// count.
    open spec fn resistance_uohm(&self, register: u16) -> int {
        round_div(register * 15625, 64)
    }

    open spec fn resistance_register(&self, micro_ohms: u32) -> u16 {
        clamp_u16(round_div(micro_ohms * 64, 15625))
    }

    /// Time step: 5.625 seconds, that is exactly 5625 milliseconds per
    /// count.
    open spec fn time_ms(&self, register: u16) -> int {
        register * 5625
    }

    open spec fn time_register(&self, milliseconds: u32) -> u16 {
        clamp_u16(round_div(milliseconds as int, 5625))
    }

    fn register_to_capacity(&self, register: u16) -> (r: u32) {
        proof {
            use_type_invariant(self);
            lemma_round_div_le_num(register * 5000, self.spec_r_sense_milliohms() as int);
        }
        let rs = self.r_sense_milliohms as u64;
        ((register as u64 * 5000 + rs / 2) / rs) as u32
    }

    fn capacity_to_register(&self, micro_amp_hours: u32) -> (r: u16) {
        proof {
            use_type_invariant(self);
            vstd::arithmetic::mul::lemma_mul_upper_bound(
                micro_amp_hours as int,
                0xFFFF_FFFF,
                self.r_sense_milliohms as int,
                0xFFFF_FFFF,
            );
        }
        let prod = micro_amp_hours as u64 * self.r_sense_milliohms as u64;
        let q = (prod + 2500) / 5000;
        if q > 0xFFFF {
            0xFFFF
        } else {
            q as u16
        }
    }

    fn register_to_percentage(&self, register: u16) -> (r: u32) {
        proof {
            lemma_round_div_le_num(register * 125, 32);
        }
        ((register as u64 * 125 + 16) / 32) as u32
    }

    fn percentage_to_register(&self, milli_percent: u32) -> (r: u16) {
        let q = (milli_percent as u64 * 32 + 62) / 125;
        if q > 0xFFFF {
            0xFFFF
        } else {
            q as u16
        }
    }

    fn register_to_voltage(&self, register: u16) -> (r: u32) {
        proof {
            lemma_round_div_le_num(register * 625, 8);
        }
        ((register as u64 * 625 + 4) / 8) as u32
    }

    fn voltage_to_register(&self, micro_volts: u32) -> (r: u16) {
        let q = (micro_volts as u64 * 8 + 312) / 625;
        if q > 0xFFFF {
            0xFFFF
        } else {
            q as u16
        }
    }

    fn register_to_current(&self, register: u16) -> (r: i32) {
        proof {
            use_type_invariant(self);
        }
        let rs = self.r_sense_milliohms as u64;
        let d = 2 * rs;
        if register < 0x8000 {
            proof {
                lemma_round_div_le_num(register * 3125, d as int);
            }
            ((register as u64 * 3125 + rs) / d) as i32
        } else {
            let mag = 0x10000u32 - register as u32;
            proof {
                lemma_round_div_le_num(mag * 3125, d as int);
                lemma_round_div_neg(mag * 3125, d as int);
                assert(as_signed(register) * 3125 == -(mag * 3125)) by (nonlinear_arith)
                    requires
                        as_signed(register) == -(mag as int),
                ;
            }
            -(((mag as u64 * 3125 + rs) / d) as i32)
        }
    }

    fn current_to_register(&self, micro_amps: i32) -> (r: u16) {
        proof {
            use_type_invariant(self);
        }
        let rs = self.r_sense_milliohms;
        if micro_amps >= 0 {
            proof {
                vstd::arithmetic::mul::lemma_mul_upper_bound(
                    micro_amps as int * 2,
                    0x1_0000_0000,
                    rs as int,
                    0xFFFF_FFFF,
                );
            }
            let prod = micro_amps as u128 * 2 * rs as u128;
            let q = (prod + 1562) / 3125;
            proof {
                assert(micro_amps as int * 2 * rs == micro_amps as int * 2 * (rs as int));
            }
            if q > 0x7FFF {
                0x7FFF
            } else {
                q as u16
            }
        } else {
            let mag = (-(micro_amps as i64)) as u64;
            proof {
                vstd::arithmetic::mul::lemma_mul_upper_bound(
                    mag as int * 2,
                    0x1_0000_0000,
                    rs as int,
                    0xFFFF_FFFF,
                );
            }
            let prod = mag as u128 * 2 * rs as u128;
            let q = (prod + 1562) / 3125;
            proof {
                lemma_round_div_neg(mag * 2 * rs as int, 3125);
                assert(micro_amps as int * 2 * rs == -(mag * 2 * (rs as int)))
                    by (nonlinear_arith)
                    requires
                        micro_amps as int == -(mag as int),
                ;
            }
            if q >= 0x8000 {
                0x8000
            } else if q == 0 {
                0
            } else {
                (0x10000 - q as u32) as u16
            }
        }
    }

    fn register_to_temperature(&self, register: u16) -> (r: i32) {
        if register < 0x8000 {
            proof {
                lemma_round_div_le_num(register * 125, 32);
            }
            ((register as u64 * 125 + 16) / 32) as i32
        } else {
            let mag = 0x10000u32 - register as u32;
            proof {
                lemma_round_div_le_num(mag * 125, 32);
                lemma_round_div_neg(mag * 125, 32);
                assert(as_signed(register) * 125 == -(mag * 125)) by (nonlinear_arith)
                    requires
                        as_signed(register) == -(mag as int),
                ;
            }
            -(((mag as u64 * 125 + 16) / 32) as i32)
        }
    }

    fn temperature_to_register(&self, milli_celsius: i32) -> (r: u16) {
        if milli_celsius >= 0 {
            let q = (milli_celsius as u64 * 32 + 62) / 125;
            if q > 0x7FFF {
                0x7FFF
            } else {
                q as u16
            }
        } else {
            let mag = (-(milli_celsius as i64)) as u64;
            let q = (mag * 32 + 62) / 125;
            proof {
                lemma_round_div_neg(mag * 32, 125);
                assert(milli_celsius as int * 32 == -(mag * 32)) by (nonlinear_arith)
                    requires
                        milli_celsius as int == -(mag as int),
                ;
            }
            if q >= 0x8000 {
                0x8000
            } else if q == 0 {
                0
            } else {
                (0x10000 - q as u32) as u16
            }
        }
    }

    fn register_to_resistance(&self, register: u16) -> (r: u32) {
        proof {
            lemma_round_div_le_num(register * 15625, 64);
        }
        ((register as u64 * 15625 + 32) / 64) as u32
    }

    fn resistance_to_register(&self, micro_ohms: u32) -> (r: u16) {
        let q = (micro_ohms as u64 * 64 + 7812) / 15625;
        if q > 0xFFFF {
            0xFFFF
        } else {
            q as u16
        }
    }

    fn register_to_time(&self, register: u16) -> (r: u32) {
        register as u32 * 5625
    }

    fn time_to_register(&self, milliseconds: u32) -> (r: u16) {
        let q = (milliseconds as u64 + 2812) / 5625;
        if q > 0xFFFF {
            0xFFFF
        } else {
            q as u16
        }
    }
}

/// The MAX17263's measurement register addresses, and its LED configuration
/// register addresses.
pub struct Register;

impl Model for Register {
    /// VCell register (09h): per-cell battery voltage.
    const V_CELL: u8 = 0x09;

    /// Current register (0Ah): two's-complement voltage across the sense
    /// resistor.
    const CURRENT: u8 = 0x0A;

    /// Temp register (08h): thermistor or die temperature.
    const TEMP: u8 = 0x08;
}

impl Register {
    /// LEDCfg1 register (40h). Initial value 0x6070.
    pub const LED_CFG_1: u8 = 0x40;

    /// LEDCfg2 register (4Bh). Initial value 0x011F.
    pub const LED_CFG_2: u8 = 0x4B;

    /// LEDCfg3 register (37h). Initial value 0x8000.
    pub const LED_CFG_3: u8 = 0x37;
}

/// The LEDCfg1 register (40h): LED driver operation. Initial value 0x6070.
#[derive(Clone, Copy, Debug, PartialEq, Eq, Structural)]
pub struct LedCfg1 {
    raw: u16,
}

impl BitField for LedCfg1 {
    const REGISTER: u8 = Register::LED_CFG_1;

    closed spec fn word(&self) -> u16 {
        self.raw
    }

    fn from_word(word: u16) -> (r: Self) {
        LedCfg1 { raw: word }
    }

    fn to_word(&self) -> (r: u16) {
        self.raw
    }
}

impl From<u16> for LedCfg1 {
    fn from(word: u16) -> (r: LedCfg1) {
        LedCfg1 { raw: word }
    }
}

impl vstd::std_specs::convert::FromSpecImpl<u16> for LedCfg1 {
    open spec fn obeys_from_spec() -> bool {
        true
    }

    closed spec fn from_spec(word: u16) -> LedCfg1 {
        LedCfg1 { raw: word }
    }
}

impl LedCfg1 {
    /// NBars (bits 0 to 3): the number of LED bars.
    pub open spec fn spec_n_bars(&self) -> u8 {
        (self.word() & 0xF) as u8
    }

    /// GrEn (bit 4): gray-scale enable for the remainder LED.
    pub open spec fn spec_gr_en(&self) -> bool {
        (self.word() >> 4) & 1 == 1
    }

    /// LChg (bit 5): drive LEDs constantly while charging.
    pub open spec fn spec_l_chg(&self) -> bool {
        (self.word() >> 5) & 1 == 1
    }

    /// LEDMd (bits 6 and 7): LED mode.
    pub open spec fn spec_led_md(&self) -> u8 {
        ((self.word() >> 6) & 0x3) as u8
    }

    /// AniMd (bits 8 and 9): animation mode.
    pub open spec fn spec_ani_md(&self) -> u8 {
        ((self.word() >> 8) & 0x3) as u8
    }

    /// AniStep (bits 10 to 12): animation step size.
    pub open spec fn spec_ani_step(&self) -> u8 {
        ((self.word() >> 10) & 0x7) as u8
    }

    /// LEDTimer (bits 13 to 15): LED termination time.
    pub open spec fn spec_led_timer(&self) -> u8 {
        ((self.word() >> 13) & 0x7) as u8
    }

    /// NBars field value.
    pub fn n_bars(&self) -> (r: u8)
        ensures
            r == self.spec_n_bars(),
            r < 16,
    {
        proof {
            let w = self.word();
            assert(w & 0xF < 16) by (bit_vector);
        }
        (self.raw & 0xF) as u8
    }

    /// GrEn field value.
    pub fn gr_en(&self) -> (r: bool)
        ensures
            r == self.spec_gr_en(),
    {
        (self.raw >> 4) & 1 == 1
    }

    /// LChg field value.
    pub fn l_chg(&self) -> (r: bool)
        ensures
            r == self.spec_l_chg(),
    {
        (self.raw >> 5) & 1 == 1
    }

    /// LEDMd field value.
    pub fn led_md(&self) -> (r: u8)
        ensures
            r == self.spec_led_md(),
            r < 4,
    {
        proof {
            let w = self.word();
            assert((w >> 6) & 0x3 < 4) by (bit_vector);
        }
        ((self.raw >> 6) & 0x3) as u8
    }

    /// AniMd field value.
    pub fn ani_md(&self) -> (r: u8)
        ensures
            r == self.spec_ani_md(),
            r < 4,
    {
        proof {
            let w = self.word();
            assert((w >> 8) & 0x3 < 4) by (bit_vector);
        }
        ((self.raw >> 8) & 0x3) as u8
    }

    /// AniStep field value.
    pub fn ani_step(&self) -> (r: u8)
        ensures
            r == self.spec_ani_step(),
            r < 8,
    {
        proof {
            let w = self.word();
            assert((w >> 10) & 0x7 < 8) by (bit_vector);
        }
        ((self.raw >> 10) & 0x7) as u8
    }

    /// LEDTimer field value.
    pub fn led_timer(&self) -> (r: u8)
        ensures
            r == self.spec_led_timer(),
            r < 8,
    {
        proof {
            let w = self.word();
            assert((w >> 13) & 0x7 < 8) by (bit_vector);
        }
        ((self.raw >> 13) & 0x7) as u8
    }
}

/// The LEDCfg2 register (4Bh): LED driver operation. Initial value 0x011F.
#[derive(Clone, Copy, Debug, PartialEq, Eq, Structural)]
pub struct LedCfg2 {
    raw: u16,
}

impl BitField for LedCfg2 {
    const REGISTER: u8 = Register::LED_CFG_2;

    closed spec fn word(&self) -> u16 {
        self.raw
    }

    fn from_word(word: u16) -> (r: Self) {
        LedCfg2 { raw: word }
    }

    fn to_word(&self) -> (r: u16) {
        self.raw
    }
}

impl From<u16> for LedCfg2 {
    fn from(word: u16) -> (r: LedCfg2) {
        LedCfg2 { raw: word }
    }
}

impl vstd::std_specs::convert::FromSpecImpl<u16> for LedCfg2 {
    open spec fn obeys_from_spec() -> bool {
        true
    }

    closed spec fn from_spec(word: u16) -> LedCfg2 {
        LedCfg2 { raw: word }
    }
}

impl LedCfg2 {
    /// Brightness (bits 0 to 4).
    pub open spec fn spec_brightness(&self) -> u8 {
        (self.word() & 0x1F) as u8
    }

    /// FBlink (bit 5): blink all LEDs when full is detected.
    pub open spec fn spec_f_blink(&self) -> bool {
        (self.word() >> 5) & 1 == 1
    }

    /// EBlink (bit 6): blink the lowest LED when empty is detected.
    pub open spec fn spec_e_blink(&self) -> bool {
        (self.word() >> 6) & 1 == 1
    }

    /// GBlink (bit 7): blink the gray LED.
    pub open spec fn spec_g_blink(&self) -> bool {
        (self.word() >> 7) & 1 == 1
    }

    /// EnAutoLEDCnt (bit 8): automatic LED counting.
    pub open spec fn spec_en_auto_led_cnt(&self) -> bool {
        (self.word() >> 8) & 1 == 1
    }

    /// VLED (bits 9 to 14): nominal LED voltage in 40 mV steps.
    pub open spec fn spec_vled(&self) -> u8 {
        ((self.word() >> 9) & 0x3F) as u8
    }

    /// DLED (bit 15): LED0 acts as an empty-battery LED.
    pub open spec fn spec_dled(&self) -> bool {
        (self.word() >> 15) & 1 == 1
    }

    /// Brightness field value.
    pub fn brightness(&self) -> (r: u8)
        ensures
            r == self.spec_brightness(),
            r < 32,
    {
        proof {
            let w = self.word();
            assert(w & 0x1F < 32) by (bit_vector);
        }
        (self.raw & 0x1F) as u8
    }

    /// FBlink field value.
    pub fn f_blink(&self) -> (r: bool)
        ensures
            r == self.spec_f_blink(),
    {
        (self.raw >> 5) & 1 == 1
    }

    /// EBlink field value.
    pub fn e_blink(&self) -> (r: bool)
        ensures
            r == self.spec_e_blink(),
    {
        (self.raw >> 6) & 1 == 1
    }

    /// GBlink field value.
    pub fn g_blink(&self) -> (r: bool)
        ensures
            r == self.spec_g_blink(),
    {
        (self.raw >> 7) & 1 == 1
    }

    /// EnAutoLEDCnt field value.
    pub fn en_auto_led_cnt(&self) -> (r: bool)
        ensures
            r == self.spec_en_auto_led_cnt(),
    {
        (self.raw >> 8) & 1 == 1
    }

    /// VLED field value.
    pub fn vled(&self) -> (r: u8)
        ensures
            r == self.spec_vled(),
            r < 64,
    {
        proof {
            let w = self.word();
            assert((w >> 9) & 0x3F < 64) by (bit_vector);
        }
        ((self.raw >> 9) & 0x3F) as u8
    }

    /// DLED field value.
    pub fn dled(&self) -> (r: bool)
        ensures
            r == self.spec_dled(),
    {
        (self.raw >> 15) & 1 == 1
    }
}

/// The LEDCfg3 register (37h): additional LED settings. Initial value
/// 0x8000. Bits 0 to 12 are reserved and are preserved as read.
#[derive(Clone, Copy, Debug, PartialEq, Eq, Structural)]
pub struct LedCfg3 {
    raw: u16,
}

impl BitField for LedCfg3 {
    const REGISTER: u8 = Register::LED_CFG_3;

    closed spec fn word(&self) -> u16 {
        self.raw
    }

    fn from_word(word: u16) -> (r: Self) {
        LedCfg3 { raw: word }
    }

    fn to_word(&self) -> (r: u16) {
        self.raw
    }
}

impl From<u16> for LedCfg3 {
    fn from(word: u16) -> (r: LedCfg3) {
        LedCfg3 { raw: word }
    }
}

impl vstd::std_specs::convert::FromSpecImpl<u16> for LedCfg3 {
    open spec fn obeys_from_spec() -> bool {
        true
    }

    closed spec fn from_spec(word: u16) -> LedCfg3 {
        LedCfg3 { raw: word }
    }
}

impl LedCfg3 {
    /// CustLEDCtrl (bit 13): LEDs are managed by the CustLED register.
    pub open spec fn spec_cust_led_ctrl(&self) -> bool {
        (self.word() >> 13) & 1 == 1
    }

    /// DNC (bit 14): auto-detected at start-up; do not change.
    pub open spec fn spec_dnc(&self) -> bool {
        (self.word() >> 14) & 1 == 1
    }

    /// FullSpd (bit 15): update LED calculations every 175 ms instead of
    /// every 0.7 s.
    pub open spec fn spec_full_spd(&self) -> bool {
        (self.word() >> 15) & 1 == 1
    }

    /// CustLEDCtrl field value.
    pub fn cust_led_ctrl(&self) -> (r: bool)
        ensures
            r == self.spec_cust_led_ctrl(),
    {
        (self.raw >> 13) & 1 == 1
    }

    /// DNC field value.
    pub fn dnc(&self) -> (r: bool)
        ensures
            r == self.spec_dnc(),
    {
        (self.raw >> 14) & 1 == 1
    }

    /// FullSpd field value.
    pub fn full_spd(&self) -> (r: bool)
        ensures
            r == self.spec_full_spd(),
    {
        (self.raw >> 15) & 1 == 1
    }
}

/// Round-trip law: converting a capacity register word to microamp-hours
/// and back recovers the word exactly, whenever the conversion step is at
/// least one microamp-hour (sense resistance at most five Ohm).
pub proof fn lemma_capacity_register_round_trip(
    resolver: Max17263RegisterResolver,
    register: u16,
)
    requires
        1 <= resolver.spec_r_sense_milliohms() <= 5000,
    ensures
        0 <= resolver.capacity_uah(register) <= u32::MAX,
        resolver.capacity_register(resolver.capacity_uah(register) as u32) == register,
{
    let rs = resolver.spec_r_sense_milliohms() as int;
    lemma_round_div_le_num(register * 5000, rs);
    lemma_register_round_trip(register as int, 5000, rs);
}

/// Round-trip law: converting microamp-hours to a capacity register word
/// and back reproduces the quantity to within one conversion step, for
/// quantities inside the representable range.
pub proof fn lemma_capacity_physical_round_trip(
    resolver: Max17263RegisterResolver,
    micro_amp_hours: u32,
)
    requires
        resolver.spec_r_sense_milliohms() >= 1,
        micro_amp_hours * resolver.spec_r_sense_milliohms() <= 0xFFFF * 5000,
    ensures
        2 * resolver.spec_r_sense_milliohms() * (resolver.capacity_uah(
            resolver.capacity_register(micro_amp_hours),
        ) - micro_amp_hours) <= 5000 + resolver.spec_r_sense_milliohms(),
        2 * resolver.spec_r_sense_milliohms() * (micro_amp_hours - resolver.capacity_uah(
            resolver.capacity_register(micro_amp_hours),
        )) <= 5000 + resolver.spec_r_sense_milliohms(),
{
    let rs = resolver.spec_r_sense_milliohms() as int;
    let q = micro_amp_hours as int;
    lemma_physical_round_trip(q, 5000, rs);
    lemma_round_div_bounds(q * rs, 5000);
    lemma_round_div_upper(q * rs, 5000, 0xFFFF);
}

/// Round-trip law: converting a percentage register word to thousandths of
/// a percent and back recovers the word exactly.
pub proof fn lemma_percentage_register_round_trip(
    resolver: Max17263RegisterResolver,
    register: u16,
)
    ensures
        0 <= resolver.percentage_mpct(register) <= u32::MAX,
        resolver.percentage_register(resolver.percentage_mpct(register) as u32) == register,
{
    lemma_round_div_le_num(register * 125, 32);
    lemma_register_round_trip(register as int, 125, 32);
}

/// Round-trip law: converting thousandths of a percent to a register word
/// and back reproduces the quantity to within one conversion step, for
/// quantities inside the representable range.
pub proof fn lemma_percentage_physical_round_trip(
    resolver: Max17263RegisterResolver,
    milli_percent: u32,
)
    requires
        milli_percent * 32 <= 0xFFFF * 125,
    ensures
        64 * (resolver.percentage_mpct(resolver.percentage_register(milli_percent))
            - milli_percent) <= 157,
        64 * (milli_percent - resolver.percentage_mpct(
            resolver.percentage_register(milli_percent),
        )) <= 157,
{
    let q = milli_percent as int;
    lemma_physical_round_trip(q, 125, 32);
    lemma_round_div_bounds(q * 32, 125);
    lemma_round_div_upper(q * 32, 125, 0xFFFF);
}

/// Round-trip law: converting a voltage register word to microvolts and
/// back recovers the word exactly.
pub proof fn lemma_voltage_register_round_trip(resolver: Max17263RegisterResolver, register: u16)
    ensures
        0 <= resolver.voltage_uv(register) <= u32::MAX,
        resolver.voltage_register(resolver.voltage_uv(register) as u32) == register,
{
    lemma_round_div_le_num(register * 625, 8);
    lemma_register_round_trip(register as int, 625, 8);
}

/// Round-trip law: converting microvolts to a register word and back
/// reproduces the quantity to within one conversion step, for quantities
/// inside the representable range.
pub proof fn lemma_voltage_physical_round_trip(
    resolver: Max17263RegisterResolver,
    micro_volts: u32,
)
    requires
        micro_volts * 8 <= 0xFFFF * 625,
    ensures
        16 * (resolver.voltage_uv(resolver.voltage_register(micro_volts)) - micro_volts) <= 633,
        16 * (micro_volts - resolver.voltage_uv(resolver.voltage_register(micro_volts))) <= 633,
{
    let q = micro_volts as int;
    lemma_physical_round_trip(q, 625, 8);
    lemma_round_div_bounds(q * 8, 625);
    lemma_round_div_upper(q * 8, 625, 0xFFFF);
}

/// Round-trip law: converting a current register word to microamps and
/// back recovers the word exactly, two's complement included, whenever the
/// conversion step is at least one microamp (sense resistance at most
/// 1.562 Ohm).
pub proof fn lemma_current_register_round_trip(resolver: Max17263RegisterResolver, register: u16)
    requires
        1 <= resolver.spec_r_sense_milliohms() <= 1562,
    ensures
        i32::MIN <= resolver.current_ua(register) <= i32::MAX,
        resolver.current_register(resolver.current_ua(register) as i32) == register,
{
    let rs = resolver.spec_r_sense_milliohms() as int;
    let d = 2 * rs;
    let s = as_signed(register);
    if register < 0x8000 {
        lemma_round_div_le_num(register * 3125, d);
        lemma_register_round_trip(register as int, 3125, d);
        let f = round_div(register * 3125, d);
        assert(f * 2 * rs == f * d) by (nonlinear_arith)
            requires
                d == 2 * rs,
        ;
    } else {
        let mag = 0x10000 - register;
        assert(s * 3125 == -(mag * 3125));
        lemma_round_div_neg(mag * 3125, d);
        lemma_round_div_le_num(mag * 3125, d);
        lemma_register_round_trip(mag, 3125, d);
        let fpos = round_div(mag * 3125, d);
        assert((-fpos) * 2 * rs == -(fpos * d)) by (nonlinear_arith)
            requires
                d == 2 * rs,
        ;
        lemma_round_div_neg(fpos * d, 3125);
    }
}

/// Round-trip law: converting microamps to a current register word and
/// back reproduces the quantity to within one conversion step, for
/// quantities inside the representable range, negative ones included.
pub proof fn lemma_current_physical_round_trip(
    resolver: Max17263RegisterResolver,
    micro_amps: i32,
)
    requires
        resolver.spec_r_sense_milliohms() >= 1,
        -0x8000 * 3125 <= micro_amps * 2 * resolver.spec_r_sense_milliohms() <= 0x7FFF * 3125,
    ensures
        4 * resolver.spec_r_sense_milliohms() * (resolver.current_ua(
            resolver.current_register(micro_amps),
        ) - micro_amps) <= 3125 + 2 * resolver.spec_r_sense_milliohms(),
        4 * resolver.spec_r_sense_milliohms() * (micro_amps - resolver.current_ua(
            resolver.current_register(micro_amps),
        )) <= 3125 + 2 * resolver.spec_r_sense_milliohms(),
{
    let rs = resolver.spec_r_sense_milliohms() as int;
    let d = 2 * rs;
    let q = micro_amps as int;
    assert(q * 2 * rs == q * d) by (nonlinear_arith)
        requires
            d == 2 * rs,
    ;
    lemma_physical_round_trip_signed(q, 3125, d);
    let g = round_div(q * d, 3125);
    if q >= 0 {
        lemma_round_div_bounds(q * d, 3125);
        lemma_round_div_upper(q * d, 3125, 0x7FFF);
    } else {
        let p = -q;
        assert(q * d == -(p * d)) by (nonlinear_arith)
            requires
                q == -p,
        ;
        lemma_round_div_neg(p * d, 3125);
        lemma_round_div_bounds(p * d, 3125);
        lemma_round_div_upper(p * d, 3125, 0x8000);
    }
    assert(g * 2 * rs == g * d) by (nonlinear_arith)
        requires
            d == 2 * rs,
    ;
}

/// Round-trip law: converting a temperature register word to thousandths
/// of a degree and back recovers the word exactly, two's complement
/// included.
pub proof fn lemma_temperature_register_round_trip(
    resolver: Max17263RegisterResolver,
    register: u16,
)
    ensures
        i32::MIN <= resolver.temperature_mc(register) <= i32::MAX,
        resolver.temperature_register(resolver.temperature_mc(register) as i32) == register,
{
    let s = as_signed(register);
    if register < 0x8000 {
        lemma_round_div_le_num(register * 125, 32);
        lemma_register_round_trip(register as int, 125, 32);
    } else {
        let mag = 0x10000 - register;
        assert(s * 125 == -(mag * 125));
        lemma_round_div_neg(mag * 125, 32);
        lemma_round_div_le_num(mag * 125, 32);
        lemma_register_round_trip(mag, 125, 32);
        let fpos = round_div(mag * 125, 32);
        assert((-fpos) * 32 == -(fpos * 32));
        lemma_round_div_neg(fpos * 32, 125);
    }
}

/// Round-trip law: converting thousandths of a degree to a register word
/// and back reproduces the quantity to within one conversion step, for
/// quantities inside the representable range, negative ones included.
pub proof fn lemma_temperature_physical_round_trip(
    resolver: Max17263RegisterResolver,
    milli_celsius: i32,
)
    requires
        -0x8000 * 125 <= milli_celsius * 32 <= 0x7FFF * 125,
    ensures
        64 * (resolver.temperature_mc(resolver.temperature_register(milli_celsius))
            - milli_celsius) <= 157,
        64 * (milli_celsius - resolver.temperature_mc(
            resolver.temperature_register(milli_celsius),
        )) <= 157,
{
    let q = milli_celsius as int;
    lemma_physical_round_trip_signed(q, 125, 32);
    if q >= 0 {
        lemma_round_div_bounds(q * 32, 125);
        lemma_round_div_upper(q * 32, 125, 0x7FFF);
    } else {
        let p = -q;
        assert(q * 32 == -(p * 32));
        lemma_round_div_neg(p * 32, 125);
        lemma_round_div_bounds(p * 32, 125);
        lemma_round_div_upper(p * 32, 125, 0x8000);
    }
}

/// Round-trip law: converting a resistance register word to microohms and
/// back recovers the word exactly.
pub proof fn lemma_resistance_register_round_trip(
    resolver: Max17263RegisterResolver,
    register: u16,
)
    ensures
        0 <= resolver.resistance_uohm(register) <= u32::MAX,
        resolver.resistance_register(resolver.resistance_uohm(register) as u32) == register,
{
    lemma_round_div_le_num(register * 15625, 64);
    lemma_register_round_trip(register as int, 15625, 64);
}

/// Round-trip law: converting microohms to a register word and back
/// reproduces the quantity to within one conversion step, for quantities
/// inside the representable range.
pub proof fn lemma_resistance_physical_round_trip(
    resolver: Max17263RegisterResolver,
    micro_ohms: u32,
)
    requires
        micro_ohms * 64 <= 0xFFFF * 15625,
    ensures
        128 * (resolver.resistance_uohm(resolver.resistance_register(micro_ohms)) - micro_ohms)
            <= 15689,
        128 * (micro_ohms - resolver.resistance_uohm(resolver.resistance_register(micro_ohms)))
            <= 15689,
{
    let q = micro_ohms as int;
    lemma_physical_round_trip(q, 15625, 64);
    lemma_round_div_bounds(q * 64, 15625);
    lemma_round_div_upper(q * 64, 15625, 0xFFFF);
}

/// Round-trip law: converting a time register word to milliseconds and
/// back recovers the word exactly.
pub proof fn lemma_time_register_round_trip(resolver: Max17263RegisterResolver, register: u16)
    ensures
        0 <= resolver.time_ms(register) <= u32::MAX,
        resolver.time_register(resolver.time_ms(register) as u32) == register,
{
    lemma_round_div_exact(register as int, 5625);
}

/// Round-trip law: converting milliseconds to a time register word and
/// back reproduces the quantity to within one conversion step, for
/// quantities inside the representable range.
pub proof fn lemma_time_physical_round_trip(
    resolver: Max17263RegisterResolver,
    milliseconds: u32,
)
    requires
        milliseconds <= 0xFFFF * 5625,
    ensures
        2 * (resolver.time_ms(resolver.time_register(milliseconds)) - milliseconds) <= 5625,
        2 * (milliseconds - resolver.time_ms(resolver.time_register(milliseconds))) <= 5626,
{
    let q = milliseconds as int;
    lemma_round_div_bounds(q, 5625);
    lemma_round_div_upper(q, 5625, 0xFFFF);
}

/// Sense-resistor sensitivity law: for the same register word, a resolver
/// with half the sense resistance reports twice the capacity, up to one
/// microamp-hour of rounding, and exactly whenever the division by the
/// doubled resistance is exact.
pub proof fn lemma_capacity_sense_scaling(
    halved: Max17263RegisterResolver,
    doubled: Max17263RegisterResolver,
    register: u16,
)
    requires
        halved.spec_r_sense_milliohms() >= 1,
        doubled.spec_r_sense_milliohms() == 2 * halved.spec_r_sense_milliohms(),
    ensures
        halved.capacity_uah(register) - 2 * doubled.capacity_uah(register) <= 1,
        2 * doubled.capacity_uah(register) - halved.capacity_uah(register) <= 1,
        (register * 5000) % (2 * halved.spec_r_sense_milliohms()) == 0 ==> halved.capacity_uah(
            register,
        ) == 2 * doubled.capacity_uah(register),
{
    lemma_round_div_halving(register * 5000, halved.spec_r_sense_milliohms() as int);
}

/// Sense-resistor sensitivity law: for the same register word, a resolver
/// with half the sense resistance reports twice the current, up to one
/// microamp of rounding, and exactly whenever the division by the doubled
/// resistance is exact; two's-complement words included.
pub proof fn lemma_current_sense_scaling(
    halved: Max17263RegisterResolver,
    doubled: Max17263RegisterResolver,
    register: u16,
)
    requires
        halved.spec_r_sense_milliohms() >= 1,
        doubled.spec_r_sense_milliohms() == 2 * halved.spec_r_sense_milliohms(),
    ensures
        halved.current_ua(register) - 2 * doubled.current_ua(register) <= 1,
        2 * doubled.current_ua(register) - halved.current_ua(register) <= 1,
{
    let rs = halved.spec_r_sense_milliohms() as int;
    let s = as_signed(register);
    assert(2 * (2 * rs) == 2 * doubled.spec_r_sense_milliohms());
    if register < 0x8000 {
        lemma_round_div_halving(register * 3125, 2 * rs);
    } else {
        let mag = 0x10000 - register;
        assert(s * 3125 == -(mag * 3125));
        lemma_round_div_halving(mag * 3125, 2 * rs);
        lemma_round_div_neg(mag * 3125, 2 * rs);
        lemma_round_div_neg(mag * 3125, 2 * (2 * rs));
    }
}

} // verus!

//! Bitfield decode/encode tests: field extraction against datasheet
//! fixtures, bit-exact round trips, and the derived quantities of the
//! configuration registers.

use max1726x::max17263::registers::LedCfg1;
use max1726x::max17263::registers::LedCfg2;
use max1726x::max17263::registers::LedCfg3;
use max1726x::registers::FStat;
use max1726x::registers::HibCfg;
use max1726x::registers::ModelCfg;
use max1726x::registers::RCell;
use max1726x::registers::Status;
use max1726x::registers::StatusBitField;
use max1726x::registers::Tte;
use max1726x::registers::Ttf;
use max1726x::registers::VEmpty;
use max1726x::registers::VFocv;
use max1726x::traits::BitField;

#[test]
fn led_cfg_1() {
    // The initial value from the datasheet.
    let led_cfg_1 = LedCfg1::from(0x6070);
    assert_eq!(led_cfg_1.n_bars(), 0);
    assert!(led_cfg_1.gr_en());
    assert!(led_cfg_1.l_chg());
    assert_eq!(led_cfg_1.led_md(), 1);
    assert_eq!(led_cfg_1.ani_md(), 0);
    assert_eq!(led_cfg_1.ani_step(), 0);
    assert_eq!(led_cfg_1.led_timer(), 3);
}

#[test]
fn led_cfg_2() {
    let led_cfg_2 = LedCfg2::from(0x111F);
    assert_eq!(led_cfg_2.brightness(), 31);
    assert!(!led_cfg_2.f_blink());
    assert!(!led_cfg_2.e_blink());
    assert!(!led_cfg_2.g_blink());
    assert!(led_cfg_2.en_auto_led_cnt());
    assert_eq!(led_cfg_2.vled(), 8);
    assert!(!led_cfg_2.dled());
}

#[test]
fn led_cfg_3() {
    // The initial value from the datasheet.
    let led_cfg_3 = LedCfg3::from(0x8000);
    assert!(led_cfg_3.full_spd());
    assert!(!led_cfg_3.cust_led_ctrl());
    assert!(!led_cfg_3.dnc());
}

#[test]
fn hib_cfg_bits() {
    // Hand-crafted bits (see the datasheet for the layout). These data are
    // MSB first / big-endian.
    let mut bytes = [0b1010_1010u8, 0b0001_0111];
    bytes.reverse();
    // Needs to be LSB first / little-endian.
    let mut hib_cfg = HibCfg::from_bytes(bytes);

    assert!(hib_cfg.en_hib());
    assert_eq!(hib_cfg.hib_enter_time(), 0b010);
    assert_eq!(hib_cfg.hib_threshold(), 0b1010);
    assert_eq!(hib_cfg.hib_exit_time(), 0b10);
    assert_eq!(hib_cfg.hib_scalar(), 0b111);

    hib_cfg.set_hib_threshold(4);
    assert_eq!(hib_cfg.hib_threshold(), 4);
}

#[test]
fn model_cfg_bits() {
    // The constant written when the charge voltage is above 4.275 V.
    let model_cfg = ModelCfg::from(0x8400);
    assert!(model_cfg.v_chg());
    assert_eq!(model_cfg.model_id(), 0);
    assert!(!model_cfg.r100());

    // The constant written when the charge voltage is below 4.275 V.
    let model_cfg = ModelCfg::from(0x8000);
    assert!(!model_cfg.v_chg());
    assert_eq!(model_cfg.model_id(), 0);
    assert!(!model_cfg.r100());
}

#[test]
fn bitfield_round_trips() {
    // Decoding a raw word and re-encoding it without mutation reproduces
    // the word exactly, reserved bits included, for every bitfield type.
    let words = [0x0000u16, 0x1517, 0x5AA5, 0x870C, 0x8400, 0xA561, 0xFFFF];
    for w in words {
        assert_eq!(StatusBitField::from_word(w).to_word(), w);
        assert_eq!(HibCfg::from_word(w).to_word(), w);
        assert_eq!(ModelCfg::from_word(w).to_word(), w);
        assert_eq!(VEmpty::from_word(w).to_word(), w);
        assert_eq!(RCell::from_word(w).to_word(), w);
        assert_eq!(VFocv::from_word(w).to_word(), w);
        assert_eq!(Ttf::from_word(w).to_word(), w);
        assert_eq!(Tte::from_word(w).to_word(), w);
        assert_eq!(LedCfg1::from_word(w).to_word(), w);
        assert_eq!(LedCfg2::from_word(w).to_word(), w);
        assert_eq!(LedCfg3::from_word(w).to_word(), w);
    }
}

#[test]
fn hib_cfg_fixture_word() {
    // The raw word 0x1517 decodes to the documented field values and
    // re-encodes bit-exactly.
    let hib = HibCfg::from_word(0x1517);
    assert_eq!(hib.hib_scalar(), 7);
    assert_eq!(hib.hib_exit_time(), 2);
    assert_eq!(hib.hib_threshold(), 5);
    assert_eq!(hib.hib_enter_time(), 1);
    assert!(!hib.en_hib());
    assert_eq!(hib.to_word(), 0x1517);

    // Byte-level round trip, little-endian.
    let bytes = HibCfg::from_word(0x1517).into_bytes();
    assert_eq!(bytes, [0x17, 0x15]);
    assert_eq!(HibCfg::from_bytes(bytes).to_word(), 0x1517);
}

#[test]
fn status_bitfield_fields() {
    // All flags set.
    let st = StatusBitField::from_word(0xFFFF);
    assert!(st.por());
    assert!(st.imn());
    assert!(st.bst());
    assert!(st.imx());
    assert!(st.d_soc_i());
    assert!(st.vmn());
    assert!(st.tmn());
    assert!(st.smn());
    assert!(st.bi());
    assert!(st.vmx());
    assert!(st.tmx());
    assert!(st.smx());
    assert!(st.br());

    // The documented value shortly after a power-on reset: POR, dSOCi and
    // Br set.
    let st = StatusBitField::from_word(0x8082);
    assert!(st.por());
    assert!(st.d_soc_i());
    assert!(st.br());
    assert!(!st.imn());
    assert!(!st.bst());
}

#[test]
fn status_flag_masking() {
    // Clearing only the POR bit from a raw status word of 0xFFFF yields
    // 0xFFFD; every other bit is unchanged.
    assert_eq!(Status::word_with_por_cleared(0xFFFF), 0xFFFD);
    assert_eq!(Status::word_with_por_cleared(0x0002), 0x0000);
    assert_eq!(Status::word_with_por_cleared(0x8082), 0x8080);
    assert_eq!(Status::word_with_por_cleared(0xFFFD), 0xFFFD);
}

#[test]
fn status_flags_truncate() {
    // Undefined bit positions are dropped on decode.
    let st = Status::from_bits_truncate(0xFFFF);
    assert_eq!(st.bits(), 0xFFCE);
    assert!(st.contains(Status::POR));
    assert!(st.contains(Status::BR));
    assert!(!st.is_empty());
    assert!(Status::from_bits_truncate(0x0031).is_empty());

    let fs = FStat::from_bits_truncate(0xFFFF);
    assert_eq!(fs.bits(), 0x03C1);
    assert!(fs.contains(FStat::DNR));
    assert!(FStat::from_bits_truncate(0x0002).is_empty());
}

#[test]
fn v_empty_fields() {
    // The initial value from the datasheet: a 3.3 V empty target and a
    // 3.88 V recovery threshold.
    let ve = VEmpty::from_word(0xA561);
    assert_eq!(ve.calc_empty_voltage_target_mv(), 3300);
    assert_eq!(ve.calc_recovery_voltage_mv(), 3880);
    assert_eq!(ve.ve(), 330);
    assert_eq!(ve.vr(), 97);

    // Building the register from those voltages reproduces the word.
    let built = VEmpty::init(3300, 3880);
    assert_eq!(built.to_word(), 0xA561);
    assert_eq!(built.calc_empty_voltage_target_mv(), 3300);
    assert_eq!(built.calc_recovery_voltage_mv(), 3880);
}

#[test]
fn hib_cfg_derived_quantities() {
    // The initial value 0x870C: scalar 4, exit time 1, threshold 7, enter
    // time 0, hibernate enabled.
    let hib = HibCfg::from_word(0x870C);
    assert_eq!(hib.hib_scalar(), 4);
    assert_eq!(hib.hib_exit_time(), 1);
    assert_eq!(hib.hib_threshold(), 7);
    assert_eq!(hib.hib_enter_time(), 0);
    assert!(hib.en_hib());

    // Task period: 351 ms scaled by two to the fourth.
    assert_eq!(hib.calc_hibernate_mode_task_period_s(), 351 * 16);
    // Exit time: (1 + 1) * 702 ms scaled by two to the fourth.
    assert_eq!(hib.calc_hibernate_mode_exit_time_s(), 2 * 702 * 16);
    // Threshold for a 1000 mAh cell: 1000 mAh / 0.8 h / 2^7, in microamps.
    assert_eq!(hib.calc_hibernate_mode_threshold_ua(1000), 9766);
}

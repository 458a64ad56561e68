//! The register catalog and typed bitfield model shared by the MAX1726x
//! family: addresses, status flag sets, and the named bitfield registers
//! with their field layouts and derived quantities.
//!
//! Every bitfield value carries its full 16-bit word, so decoding a word and
//! re-encoding it reproduces the word bit-exactly, reserved positions
//! included.

use vstd::prelude::*;

use crate::rounding::round_div;
use crate::traits::BitField;

verus! {

/// The low (first-transmitted) byte of a register word.
pub open spec fn low_byte(word: u16) -> u8 {
    (word & 0xFF) as u8
}

/// The high (second-transmitted) byte of a register word.
pub open spec fn high_byte(word: u16) -> u8 {
    (word >> 8) as u8
}

/// The register word assembled from its little-endian bytes.
pub open spec fn word_of_le_bytes(lo: u8, hi: u8) -> u16 {
    (lo as u16) | ((hi as u16) << 8)
}

/// Splitting a word into little-endian bytes and reassembling them is the
/// identity, in both directions.
pub proof fn lemma_le_bytes_round_trip(word: u16, lo: u8, hi: u8)
    ensures
        word_of_le_bytes(low_byte(word), high_byte(word)) == word,
        low_byte(word_of_le_bytes(lo, hi)) == lo,
        high_byte(word_of_le_bytes(lo, hi)) == hi,
{
    assert(((word & 0xFF) as u8 as u16) | (((word >> 8) as u8 as u16) << 8) == word)
        by (bit_vector);
    assert((((lo as u16) | ((hi as u16) << 8)) & 0xFF) as u8 == lo) by (bit_vector);
    assert((((lo as u16) | ((hi as u16) << 8)) >> 8) as u8 == hi) by (bit_vector);
}

/// The register addresses common to the MAX1726x family.
pub struct Register;

impl Register {
    /// Status register (00h). Alert, battery insertion/removal and
    /// power-on-reset flags.
    pub const STATUS: u8 = 0x00;

    /// FStat register (3Dh). Read-only status of the fuel-gauge algorithm.
    pub const F_STAT: u8 = 0x3D;

    /// HibCfg register (BAh). Hibernate mode configuration.
    pub const HIB_CFG: u8 = 0xBA;

    /// Command register (60h) used for the soft-wakeup sequence.
    pub const SOFT_WAKEUP: u8 = 0x60;

    /// DesignCap register (18h). The expected capacity of the cell.
    pub const DESIGN_CAP: u8 = 0x18;

    /// IChgTerm register (1Eh). The charge termination current.
    pub const I_CHG_TERM: u8 = 0x1E;

    /// VEmpty register (3Ah). Empty and recovery voltage thresholds.
    pub const V_EMPTY: u8 = 0x3A;

    /// ModelCfg register (DBh). Basic options of the EZ algorithm.
    pub const MODEL_CFG: u8 = 0xDB;

    /// RCell register (14h). The calculated internal resistance of the cell.
    pub const R_CELL: u8 = 0x14;

    /// VFOCV register (FBh). The calculated open-circuit voltage.
    pub const V_FOCV: u8 = 0xFB;

    /// TTF register (20h). The estimated time to full.
    pub const TTF: u8 = 0x20;

    /// TTE register (11h). The estimated time to empty.
    pub const TTE: u8 = 0x11;
}

/// The measurement output registers read for a charge status snapshot.
pub struct OutputRegister;

impl OutputRegister {
    /// RepCap register (05h). Reported remaining capacity.
    pub const REP_CAP: u8 = 0x05;

    /// RepSOC register (06h). Reported state-of-charge percentage.
    pub const REP_SOC: u8 = 0x06;

    /// TTE register (11h). The estimated time to empty.
    pub const TTE: u8 = 0x11;
}

/// The Status register (00h) flag set. Bits outside the defined flags are
/// dropped on decode.
#[derive(Clone, Copy, Debug, PartialEq, Eq, Structural)]
pub struct Status {
    bits: u16,
}

impl Status {
    /// Power-on reset detected; must be cleared by the host to observe the
    /// next reset.
    pub const POR: u16 = 1u16 << 1;

    /// Current reading below the minimum alert threshold.
    pub const IMN: u16 = 1u16 << 2;

    /// Battery absent (host-side applications).
    pub const BST: u16 = 1u16 << 3;

    /// Current reading above the maximum alert threshold.
    pub const IMX: u16 = 1u16 << 6;

    /// State of charge crossed an integer percentage boundary.
    pub const D_SOC_I: u16 = 1u16 << 7;

    /// Voltage reading below the minimum alert threshold.
    pub const VMN: u16 = 1u16 << 8;

    /// Temperature reading below the minimum alert threshold.
    pub const TMN: u16 = 1u16 << 9;

    /// State of charge below the minimum alert threshold.
    pub const SMN: u16 = 1u16 << 10;

    /// Battery insertion detected.
    pub const BI: u16 = 1u16 << 11;

    /// Voltage reading above the maximum alert threshold.
    pub const VMX: u16 = 1u16 << 12;

    /// Temperature reading above the maximum alert threshold.
    pub const TMX: u16 = 1u16 << 13;

    /// State of charge above the maximum alert threshold.
    pub const SMX: u16 = 1u16 << 14;

    /// Battery removal detected.
    pub const BR: u16 = 1u16 << 15;

    /// Every defined Status flag.
    pub const ALL: u16 = Status::POR | Status::IMN | Status::BST | Status::IMX | Status::D_SOC_I
        | Status::VMN | Status::TMN | Status::SMN | Status::BI | Status::VMX | Status::TMX
        | Status::SMX | Status::BR;

    /// The flag bits this value holds.
    pub closed spec fn spec_bits(&self) -> u16 {
        self.bits
    }

    /// Decodes a raw word, keeping only the defined flag bits.
    pub fn from_bits_truncate(bits: u16) -> (r: Status)
        ensures
            r.spec_bits() == (bits & Status::ALL),
    {
        Status { bits: bits & Status::ALL }
    }

    /// The raw flag bits.
    pub fn bits(&self) -> (r: u16)
        ensures
            r == self.spec_bits(),
    {
        self.bits
    }

    /// True if no flag is set.
    pub fn is_empty(&self) -> (r: bool)
        ensures
            r == (self.spec_bits() == 0),
    {
        self.bits == 0
    }

    /// True if every flag of `mask` is set.
    pub fn contains(&self, mask: u16) -> (r: bool)
        ensures
            r == ((self.spec_bits() & mask) == mask),
    {
        (self.bits & mask) == mask
    }

    /// Returns `word` with the POR bit (bit 1) cleared and every other bit,
    /// defined or reserved, left exactly as it was.
    pub fn word_with_por_cleared(word: u16) -> (r: u16)
        ensures
            r == (word & 0xFFFD),
            (r & Status::POR) == 0,
            forall|i: u16| i < 16 && i != 1 ==> ((r >> i) & 1) == ((word >> i) & 1),
    {
        proof {
            assert(((word & 0xFFFD) & (1u16 << 1)) == 0) by (bit_vector);
            assert forall|i: u16| i < 16 && i != 1 implies (((word & 0xFFFD) >> i) & 1) == ((word
                >> i) & 1) by {
            assert(i < 16 && i != 1 ==> (((word & 0xFFFD) >> i) & 1) == ((word >> i) & 1))
                by (bit_vector);
            }
        }
        word & 0xFFFD
    }
}

/// The FStat register (3Dh) flag set: read-only status of the fuel-gauge
/// algorithm. Bits outside the defined flags are dropped on decode.
#[derive(Clone, Copy, Debug, PartialEq, Eq, Structural)]
pub struct FStat {
    bits: u16,
}

impl FStat {
    /// Data not ready: set at cell insertion until the output registers have
    /// been updated, about 710 ms from power-up.
    pub const DNR: u16 = 1u16;

    /// Long relaxation: the cell has been relaxed for 48 to 96 minutes or
    /// longer.
    pub const REL_DT2: u16 = 1u16 << 6;

    /// Full qualified: all charge termination conditions have been met.
    pub const FQ: u16 = 1u16 << 7;

    /// Empty detection: the cell empty point has been reached.
    pub const E_DET: u16 = 1u16 << 8;

    /// Relaxed cell detection.
    pub const REL_DT: u16 = 1u16 << 9;

    /// Every defined FStat flag.
    pub const ALL: u16 = FStat::DNR | FStat::REL_DT2 | FStat::FQ | FStat::E_DET | FStat::REL_DT;

    /// The flag bits this value holds.
    pub closed spec fn spec_bits(&self) -> u16 {
        self.bits
    }

    /// Decodes a raw word, keeping only the defined flag bits.
    pub fn from_bits_truncate(bits: u16) -> (r: FStat)
        ensures
            r.spec_bits() == (bits & FStat::ALL),
    {
        FStat { bits: bits & FStat::ALL }
    }

    /// The raw flag bits.
    pub fn bits(&self) -> (r: u16)
        ensures
            r == self.spec_bits(),
    {
        self.bits
    }

    /// True if no flag is set.
    pub fn is_empty(&self) -> (r: bool)
        ensures
            r == (self.spec_bits() == 0),
    {
        self.bits == 0
    }

    /// True if every flag of `mask` is set.
    pub fn contains(&self, mask: u16) -> (r: bool)
        ensures
            r == ((self.spec_bits() & mask) == mask),
    {
        (self.bits & mask) == mask
    }
}

/// The Status register (00h) as a typed bitfield, for field-wise access
/// rather than flag masking. Reserved positions (bits 0, 4 and 5) are kept
/// as read.
#[derive(Clone, Copy, Debug, PartialEq, Eq, Structural)]
pub struct StatusBitField {
    raw: u16,
}

impl BitField for StatusBitField {
    const REGISTER: u8 = Register::STATUS;

    closed spec fn word(&self) -> u16 {
        self.raw
    }

    fn from_word(word: u16) -> (r: Self) {
        StatusBitField { raw: word }
    }

    fn to_word(&self) -> (r: u16) {
        self.raw
    }
}

impl StatusBitField {
    /// Power-on reset detected (bit 1).
    pub open spec fn spec_por(&self) -> bool {
        (self.word() >> 1) & 1 == 1
    }

    /// Minimum current alert threshold exceeded (bit 2).
    pub open spec fn spec_imn(&self) -> bool {
        (self.word() >> 2) & 1 == 1
    }

    /// Battery absent (bit 3).
    pub open spec fn spec_bst(&self) -> bool {
        (self.word() >> 3) & 1 == 1
    }

    /// Maximum current alert threshold exceeded (bit 6).
    pub open spec fn spec_imx(&self) -> bool {
        (self.word() >> 6) & 1 == 1
    }

    /// State of charge crossed an integer percentage boundary (bit 7).
    pub open spec fn spec_d_soc_i(&self) -> bool {
        (self.word() >> 7) & 1 == 1
    }

    /// Minimum voltage alert threshold exceeded (bit 8).
    pub open spec fn spec_vmn(&self) -> bool {
        (self.word() >> 8) & 1 == 1
    }

    /// Minimum temperature alert threshold exceeded (bit 9).
    pub open spec fn spec_tmn(&self) -> bool {
        (self.word() >> 9) & 1 == 1
    }

    /// Minimum state-of-charge alert threshold exceeded (bit 10).
    pub open spec fn spec_smn(&self) -> bool {
        (self.word() >> 10) & 1 == 1
    }

    /// Battery insertion detected (bit 11).
    pub open spec fn spec_bi(&self) -> bool {
        (self.word() >> 11) & 1 == 1
    }

    /// Maximum voltage alert threshold exceeded (bit 12).
    pub open spec fn spec_vmx(&self) -> bool {
        (self.word() >> 12) & 1 == 1
    }

    /// Maximum temperature alert threshold exceeded (bit 13).
    pub open spec fn spec_tmx(&self) -> bool {
        (self.word() >> 13) & 1 == 1
    }

    /// Maximum state-of-charge alert threshold exceeded (bit 14).
    pub open spec fn spec_smx(&self) -> bool {
        (self.word() >> 14) & 1 == 1
    }

    /// Battery removal detected (bit 15).
    pub open spec fn spec_br(&self) -> bool {
        (self.word() >> 15) & 1 == 1
    }

    /// Power-on reset detected.
    pub fn por(&self) -> (r: bool)
        ensures
            r == self.spec_por(),
    {
        (self.raw >> 1) & 1 == 1
    }

    /// Minimum current alert threshold exceeded.
    pub fn imn(&self) -> (r: bool)
        ensures
            r == self.spec_imn(),
    {
        (self.raw >> 2) & 1 == 1
    }

    /// Battery absent.
    pub fn bst(&self) -> (r: bool)
        ensures
            r == self.spec_bst(),
    {
        (self.raw >> 3) & 1 == 1
    }

    /// Maximum current alert threshold exceeded.
    pub fn imx(&self) -> (r: bool)
        ensures
            r == self.spec_imx(),
    {
        (self.raw >> 6) & 1 == 1
    }

    /// State of charge crossed an integer percentage boundary.
    pub fn d_soc_i(&self) -> (r: bool)
        ensures
            r == self.spec_d_soc_i(),
    {
        (self.raw >> 7) & 1 == 1
    }

    /// Minimum voltage alert threshold exceeded.
    pub fn vmn(&self) -> (r: bool)
        ensures
            r == self.spec_vmn(),
    {
        (self.raw >> 8) & 1 == 1
    }

    /// Minimum temperature alert threshold exceeded.
    pub fn tmn(&self) -> (r: bool)
        ensures
            r == self.spec_tmn(),
    {
        (self.raw >> 9) & 1 == 1
    }

    /// Minimum state-of-charge alert threshold exceeded.
    pub fn smn(&self) -> (r: bool)
        ensures
            r == self.spec_smn(),
    {
        (self.raw >> 10) & 1 == 1
    }

    /// Battery insertion detected.
    pub fn bi(&self) -> (r: bool)
        ensures
            r == self.spec_bi(),
    {
        (self.raw >> 11) & 1 == 1
    }

    /// Maximum voltage alert threshold exceeded.
    pub fn vmx(&self) -> (r: bool)
        ensures
            r == self.spec_vmx(),
    {
        (self.raw >> 12) & 1 == 1
    }

    /// Maximum temperature alert threshold exceeded.
    pub fn tmx(&self) -> (r: bool)
        ensures
            r == self.spec_tmx(),
    {
        (self.raw >> 13) & 1 == 1
    }

    /// Maximum state-of-charge alert threshold exceeded.
    pub fn smx(&self) -> (r: bool)
        ensures
            r == self.spec_smx(),
    {
        (self.raw >> 14) & 1 == 1
    }

    /// Battery removal detected.
    pub fn br(&self) -> (r: bool)
        ensures
            r == self.spec_br(),
    {
        (self.raw >> 15) & 1 == 1
    }
}

/// The HibCfg register (BAh): hibernate mode configuration. Initial value
/// 0x870C. Bits 5 to 7 are reserved and are preserved as read.
#[derive(Clone, Copy, Debug, PartialEq, Eq, Structural)]
pub struct HibCfg {
    raw: u16,
}

impl BitField for HibCfg {
    const REGISTER: u8 = Register::HIB_CFG;

    closed spec fn word(&self) -> u16 {
        self.raw
    }

    fn from_word(word: u16) -> (r: Self) {
        HibCfg { raw: word }
    }

    fn to_word(&self) -> (r: u16) {
        self.raw
    }
}

impl HibCfg {
    /// HibScalar (bits 0 to 2): task period in hibernate mode scales by
    /// two to this power.
    pub open spec fn spec_hib_scalar(&self) -> u8 {
        (self.word() & 0x7) as u8
    }

    /// HibExitTime (bits 3 and 4): time above threshold before leaving
    /// hibernate.
    pub open spec fn spec_hib_exit_time(&self) -> u8 {
        ((self.word() >> 3) & 0x3) as u8
    }

    /// HibThreshold (bits 8 to 11): current threshold for entering or
    /// leaving hibernate.
    pub open spec fn spec_hib_threshold(&self) -> u8 {
        ((self.word() >> 8) & 0xF) as u8
    }

    /// HibEnterTime (bits 12 to 14): time below threshold before entering
    /// hibernate.
    pub open spec fn spec_hib_enter_time(&self) -> u8 {
        ((self.word() >> 12) & 0x7) as u8
    }

    /// EnHib (bit 15): hibernate mode enabled.
    pub open spec fn spec_en_hib(&self) -> bool {
        (self.word() >> 15) & 1 == 1
    }

    /// Decodes the register from its little-endian bytes.
    pub fn from_bytes(bytes: [u8; 2]) -> (r: Self)
        ensures
            r.word() == word_of_le_bytes(bytes@[0], bytes@[1]),
    {
        HibCfg { raw: (bytes[0] as u16) | ((bytes[1] as u16) << 8) }
    }

    /// Encodes the register into its little-endian bytes.
    pub fn into_bytes(self) -> (r: [u8; 2])
        ensures
            r@[0] == low_byte(self.word()),
            r@[1] == high_byte(self.word()),
    {
        [(self.raw & 0xFF) as u8, (self.raw >> 8) as u8]
    }

    /// HibScalar field value.
    pub fn hib_scalar(&self) -> (r: u8)
        ensures
            r == self.spec_hib_scalar(),
            r < 8,
    {
        proof {
            let w = self.word();
            assert(w & 0x7 < 8) by (bit_vector);
        }
        (self.raw & 0x7) as u8
    }

    /// HibExitTime field value.
    pub fn hib_exit_time(&self) -> (r: u8)
        ensures
            r == self.spec_hib_exit_time(),
            r < 4,
    {
        proof {
            let w = self.word();
            assert((w >> 3) & 0x3 < 4) by (bit_vector);
        }
        ((self.raw >> 3) & 0x3) as u8
    }

    /// HibThreshold field value.
    pub fn hib_threshold(&self) -> (r: u8)
        ensures
            r == self.spec_hib_threshold(),
            r < 16,
    {
        proof {
            let w = self.word();
            assert((w >> 8) & 0xF < 16) by (bit_vector);
        }
        ((self.raw >> 8) & 0xF) as u8
    }

    /// HibEnterTime field value.
    pub fn hib_enter_time(&self) -> (r: u8)
        ensures
            r == self.spec_hib_enter_time(),
            r < 8,
    {
        proof {
            let w = self.word();
            assert((w >> 12) & 0x7 < 8) by (bit_vector);
        }
        ((self.raw >> 12) & 0x7) as u8
    }

    /// EnHib field value.
    pub fn en_hib(&self) -> (r: bool)
        ensures
            r == self.spec_en_hib(),
    {
        (self.raw >> 15) & 1 == 1
    }

    /// Replaces the HibThreshold field, leaving every other bit of the
    /// word, reserved positions included, unchanged.
    pub fn set_hib_threshold(&mut self, value: u8)
        requires
            value < 16,
        ensures
            final(self).word() == ((old(self).word() & 0xF0FF) | ((value as u16) << 8)),
            final(self).spec_hib_threshold() == value,
            final(self).spec_hib_scalar() == old(self).spec_hib_scalar(),
            final(self).spec_hib_exit_time() == old(self).spec_hib_exit_time(),
            final(self).spec_hib_enter_time() == old(self).spec_hib_enter_time(),
            final(self).spec_en_hib() == old(self).spec_en_hib(),
    {
        let ghost w0 = self.raw;
        self.raw = (self.raw & 0xF0FF) | ((value as u16) << 8);
        proof {
            let v = value;
            assert((((w0 & 0xF0FF) | ((v as u16) << 8)) >> 8) & 0xF == v && (((w0 & 0xF0FF) | ((
            v as u16) << 8)) & 0x7) == (w0 & 0x7) && ((((w0 & 0xF0FF) | ((v as u16) << 8)) >> 3)
                & 0x3) == ((w0 >> 3) & 0x3) && ((((w0 & 0xF0FF) | ((v as u16) << 8)) >> 12) & 0x7)
                == ((w0 >> 12) & 0x7) && ((((w0 & 0xF0FF) | ((v as u16) << 8)) >> 15) & 1) == ((w0
                >> 15) & 1)) by (bit_vector)
                requires
                    v < 16,
            ;
        }
    }

    /// The task period while in hibernate mode, from the HibScalar field.
    /// The value follows the device's documented scaling of a 351 ms base
    /// period by two to the HibScalar power.
    pub fn calc_hibernate_mode_task_period_s(&self) -> (r: u32)
        ensures
            r == 351u32 * (1u32 << (self.spec_hib_scalar() as u32)),
    {
        let s = self.hib_scalar();
        proof {
            let sv = s;
            assert(sv < 8 ==> (1u32 << (sv as u32)) <= 128) by (bit_vector);
        }
        351u32 * (1u32 << (s as u32))
    }

    /// The time above the current threshold required before the device
    /// leaves hibernate, from the HibExitTime and HibScalar fields. The
    /// value follows the device's documented scaling of a 702 ms base
    /// period.
    pub fn calc_hibernate_mode_exit_time_s(&self) -> (r: u32)
        ensures
            r == (self.spec_hib_exit_time() as u32 + 1) * 702 * (1u32 << (
            self.spec_hib_scalar() as u32)),
    {
        let e = self.hib_exit_time();
        let s = self.hib_scalar();
        proof {
            let sv = s;
            assert(sv < 8 ==> (1u32 << (sv as u32)) <= 128) by (bit_vector);
            assert((e as u32 + 1) * 702 * (1u32 << (sv as u32)) <= 359424) by (nonlinear_arith)
                requires
                    e < 4,
                    (1u32 << (sv as u32)) <= 128,
            ;
        }
        (e as u32 + 1) * 702 * (1u32 << (s as u32))
    }

    /// The hibernate entry/exit current threshold, in microamps, for a cell
    /// of the given full capacity in milliamp-hours: the capacity divided by
    /// 0.8 hours, divided by two to the HibThreshold power, rounded to the
    /// nearest microamp.
    pub fn calc_hibernate_mode_threshold_ua(&self, full_cap_mah: u32) -> (r: u64)
        ensures
            r as int == round_div(full_cap_mah * 1250, (1u32 << (
            self.spec_hib_threshold() as u32)) as int),
    {
        let th = self.hib_threshold();
        let d = 1u64 << (th as u64);
        proof {
            let tv = th;
            assert(tv < 16 ==> 1u64 <= (1u64 << (tv as u64)) <= 32768) by (bit_vector);
            assert((1u64 << (tv as u64)) == (1u32 << (tv as u32)) as u64) by (bit_vector)
                requires
                    tv < 16,
            ;
        }
        (full_cap_mah as u64 * 1250 + d / 2) / d
    }
}

/// The ModelCfg register (DBh): basic options of the EZ algorithm. Initial
/// value 0x8400. Undefined positions are preserved as read.
#[derive(Clone, Copy, Debug, PartialEq, Eq, Structural)]
pub struct ModelCfg {
    raw: u16,
}

impl BitField for ModelCfg {
    const REGISTER: u8 = Register::MODEL_CFG;

    closed spec fn word(&self) -> u16 {
        self.raw
    }

    fn from_word(word: u16) -> (r: Self) {
        ModelCfg { raw: word }
    }

    fn to_word(&self) -> (r: u16) {
        self.raw
    }
}

impl From<u16> for ModelCfg {
    fn from(word: u16) -> (r: ModelCfg) {
        ModelCfg { raw: word }
    }
}

impl vstd::std_specs::convert::FromSpecImpl<u16> for ModelCfg {
    open spec fn obeys_from_spec() -> bool {
        true
    }

    closed spec fn from_spec(word: u16) -> ModelCfg {
        ModelCfg { raw: word }
    }
}

impl ModelCfg {
    /// The Refresh bit (bit 15) as a mask.
    pub const REFRESH: u16 = 1u16 << 15;

    /// ModelID (bits 4 to 7): the lithium model to load.
    pub open spec fn spec_model_id(&self) -> u8 {
        ((self.word() >> 4) & 0xF) as u8
    }

    /// VChg (bit 10): set for a charge voltage above 4.25 V.
    pub open spec fn spec_v_chg(&self) -> bool {
        (self.word() >> 10) & 1 == 1
    }

    /// R100 (bit 13): set when a 100 kOhm NTC thermistor is used.
    pub open spec fn spec_r100(&self) -> bool {
        (self.word() >> 13) & 1 == 1
    }

    /// Refresh (bit 15): commands a model reload; the device clears it when
    /// the reload has finished.
    pub open spec fn spec_refresh(&self) -> bool {
        (self.word() >> 15) & 1 == 1
    }

    /// ModelID field value.
    pub fn model_id(&self) -> (r: u8)
        ensures
            r == self.spec_model_id(),
            r < 16,
    {
        proof {
            let w = self.word();
            assert((w >> 4) & 0xF < 16) by (bit_vector);
        }
        ((self.raw >> 4) & 0xF) as u8
    }

    /// VChg field value.
    pub fn v_chg(&self) -> (r: bool)
        ensures
            r == self.spec_v_chg(),
    {
        (self.raw >> 10) & 1 == 1
    }

    /// R100 field value.
    pub fn r100(&self) -> (r: bool)
        ensures
            r == self.spec_r100(),
    {
        (self.raw >> 13) & 1 == 1
    }

    /// Refresh field value.
    pub fn refresh(&self) -> (r: bool)
        ensures
            r == self.spec_refresh(),
    {
        (self.raw >> 15) & 1 == 1
    }
}

/// The VEmpty register (3Ah): empty detection thresholds. Initial value
/// 0xA561, meaning a 3.3 V empty target and a 3.88 V recovery threshold.
#[derive(Clone, Copy, Debug, PartialEq, Eq, Structural)]
pub struct VEmpty {
    raw: u16,
}

impl BitField for VEmpty {
    const REGISTER: u8 = Register::V_EMPTY;

    closed spec fn word(&self) -> u16 {
        self.raw
    }

    fn from_word(word: u16) -> (r: Self) {
        VEmpty { raw: word }
    }

    fn to_word(&self) -> (r: u16) {
        self.raw
    }
}

impl VEmpty {
    /// VR (bits 0 to 6): recovery voltage for re-arming empty detection, in
    /// 40 mV steps.
    pub open spec fn spec_vr(&self) -> u8 {
        (self.word() & 0x7F) as u8
    }

    /// VE (bits 7 to 15): empty voltage target under load, in 10 mV steps.
    pub open spec fn spec_ve(&self) -> u16 {
        (self.word() >> 7) & 0x1FF
    }

    /// Decodes the register from its little-endian bytes.
    pub fn from_bytes(bytes: [u8; 2]) -> (r: Self)
        ensures
            r.word() == word_of_le_bytes(bytes@[0], bytes@[1]),
    {
        VEmpty { raw: (bytes[0] as u16) | ((bytes[1] as u16) << 8) }
    }

    /// Encodes the register into its little-endian bytes.
    pub fn into_bytes(self) -> (r: [u8; 2])
        ensures
            r@[0] == low_byte(self.word()),
            r@[1] == high_byte(self.word()),
    {
        [(self.raw & 0xFF) as u8, (self.raw >> 8) as u8]
    }

    /// VR field value.
    pub fn vr(&self) -> (r: u8)
        ensures
            r == self.spec_vr(),
            r < 128,
    {
        proof {
            let w = self.word();
            assert(w & 0x7F < 128) by (bit_vector);
        }
        (self.raw & 0x7F) as u8
    }

    /// VE field value.
    pub fn ve(&self) -> (r: u16)
        ensures
            r == self.spec_ve(),
            r < 512,
    {
        proof {
            let w = self.word();
            assert((w >> 7) & 0x1FF < 512) by (bit_vector);
        }
        (self.raw >> 7) & 0x1FF
    }

    /// The empty voltage target during load, in millivolts.
    pub fn calc_empty_voltage_target_mv(&self) -> (r: u16)
        ensures
            r == self.spec_ve() * 10,
    {
        self.ve() * 10
    }

    /// The voltage level for clearing empty detection, in millivolts.
    pub fn calc_recovery_voltage_mv(&self) -> (r: u16)
        ensures
            r == self.spec_vr() as u16 * 40,
    {
        self.vr() as u16 * 40
    }

    /// Builds the register from an empty voltage target and a recovery
    /// voltage, both in millivolts. Each is truncated to its field's step
    /// size, 10 mV and 40 mV respectively.
    pub fn init(empty_voltage_target_mv: u16, recovery_voltage_mv: u16) -> (r: Self)
        requires
            empty_voltage_target_mv < 5120,
            recovery_voltage_mv < 5120,
        ensures
            r.spec_ve() == empty_voltage_target_mv / 10,
            r.spec_vr() == recovery_voltage_mv / 40,
            r.word() == (((empty_voltage_target_mv / 10) << 7) | (recovery_voltage_mv / 40)),
    {
        let ve = empty_voltage_target_mv / 10;
        let vr = recovery_voltage_mv / 40;
        proof {
            let a = ve;
            let b = vr;
            assert((((a << 7) | b) >> 7) & 0x1FF == a && ((a << 7) | b) & 0x7F == b
                && (a << 7) | b == ((a << 7) | b)) by (bit_vector)
                requires
                    a < 512,
                    b < 128,
            ;
        }
        VEmpty { raw: (ve << 7) | vr }
    }
}

/// The command register (60h) values for the soft-wakeup sequence used when
/// leaving hibernate mode.
pub struct SoftWakeup {}

impl SoftWakeup {
    /// Clears all commands.
    pub const CLEAR: u16 = 0;

    /// Wakes the fuel gauge from hibernate to shorten its response to
    /// configuration changes; must be cleared afterwards.
    pub const SOFT_WAKEUP: u16 = 0x0090;
}

/// The RCell register (14h): the calculated internal resistance of the
/// cell, with a step of 1/4096 Ohm.
#[derive(Clone, Copy, Debug, PartialEq, Eq, Structural)]
pub struct RCell {
    raw: u16,
}

impl BitField for RCell {
    const REGISTER: u8 = Register::R_CELL;

    closed spec fn word(&self) -> u16 {
        self.raw
    }

    fn from_word(word: u16) -> (r: Self) {
        RCell { raw: word }
    }

    fn to_word(&self) -> (r: u16) {
        self.raw
    }
}

impl From<u16> for RCell {
    fn from(word: u16) -> (r: RCell) {
        RCell { raw: word }
    }
}

impl vstd::std_specs::convert::FromSpecImpl<u16> for RCell {
    open spec fn obeys_from_spec() -> bool {
        true
    }

    closed spec fn from_spec(word: u16) -> RCell {
        RCell { raw: word }
    }
}

/// The register word that encodes the given milliohms, truncated to the
/// register's 1/4096 Ohm step and saturated to the representable range.
pub open spec fn rcell_word_of_milliohms(milliohms: u32) -> u16 {
    if milliohms * 4096 / 1000 > 0xFFFF {
        0xFFFF
    } else {
        (milliohms * 4096 / 1000) as u16
    }
}

impl RCell {
    /// The raw resistance field, covering the whole word.
    pub fn resistance(&self) -> (r: u16)
        ensures
            r == self.word(),
    {
        self.raw
    }

    /// The resistance in milliohms, rounded to the nearest milliohm.
    pub fn to_milliohms(&self) -> (r: u32)
        ensures
            r as int == round_div(self.word() * 1000, 4096),
    {
        let q = (self.raw as u64 * 1000 + 2048) / 4096;
        proof {
            vstd::arithmetic::div_mod::lemma_div_is_ordered(
                self.raw as u64 * 1000 + 2048,
                (0xFFFF * 1000 + 2048) as int,
                4096,
            );
        }
        q as u32
    }

    /// Builds the register from a resistance in milliohms, truncated to the
    /// register step and saturated to the representable range.
    pub fn from_milliohms(milliohms: u32) -> (r: Self)
        ensures
            r.word() == rcell_word_of_milliohms(milliohms),
    {
        let v = milliohms as u64 * 4096 / 1000;
        if v > 0xFFFF {
            RCell { raw: 0xFFFF }
        } else {
            RCell { raw: v as u16 }
        }
    }
}

/// The VFOCV register (FBh): the calculated open-circuit voltage of the
/// cell, with a step of 78.125 microvolts.
#[derive(Clone, Copy, Debug, PartialEq, Eq, Structural)]
pub struct VFocv {
    raw: u16,
}

impl BitField for VFocv {
    const REGISTER: u8 = Register::V_FOCV;

    closed spec fn word(&self) -> u16 {
        self.raw
    }

    fn from_word(word: u16) -> (r: Self) {
        VFocv { raw: word }
    }

    fn to_word(&self) -> (r: u16) {
        self.raw
    }
}

/// The register word that encodes the given millivolts, truncated to the
/// register's 78.125 microvolt step (64/5 counts per millivolt) and
/// saturated to the representable range.
pub open spec fn vfocv_word_of_millivolts(millivolts: u32) -> u16 {
    if millivolts * 64 / 5 > 0xFFFF {
        0xFFFF
    } else {
        (millivolts * 64 / 5) as u16
    }
}

impl VFocv {
    /// The raw voltage field, covering the whole word.
    pub fn voltage(&self) -> (r: u16)
        ensures
            r == self.word(),
    {
        self.raw
    }

    /// The voltage in millivolts, rounded to the nearest millivolt
    /// (the register step is 5/64 of a millivolt).
    pub fn to_millivolts(&self) -> (r: u32)
        ensures
            r as int == round_div(self.word() * 5, 64),
    {
        let q = (self.raw as u64 * 5 + 32) / 64;
        proof {
            vstd::arithmetic::div_mod::lemma_div_is_ordered(
                self.raw as u64 * 5 + 32,
                (0xFFFF * 5 + 32) as int,
                64,
            );
        }
        q as u32
    }

    /// Builds the register from a voltage in millivolts, truncated to the
    /// register step and saturated to the representable range.
    pub fn from_millivolts(millivolts: u32) -> (r: Self)
        ensures
            r.word() == vfocv_word_of_millivolts(millivolts),
    {
        let v = millivolts as u64 * 64 / 5;
        if v > 0xFFFF {
            VFocv { raw: 0xFFFF }
        } else {
            VFocv { raw: v as u16 }
        }
    }
}

/// The register word that encodes the given seconds in 5.625-second counts
/// (8/45 counts per second), truncated and saturated to the representable
/// range.
pub open spec fn time_word_of_seconds(seconds: u32) -> u16 {
    if seconds * 8 / 45 > 0xFFFF {
        0xFFFF
    } else {
        (seconds * 8 / 45) as u16
    }
}

/// The TTF register (20h): the estimated time to full, with a step of
/// 5.625 seconds.
#[derive(Clone, Copy, Debug, PartialEq, Eq, Structural)]
pub struct Ttf {
    raw: u16,
}

impl BitField for Ttf {
    const REGISTER: u8 = Register::TTF;

    closed spec fn word(&self) -> u16 {
        self.raw
    }

    fn from_word(word: u16) -> (r: Self) {
        Ttf { raw: word }
    }

    fn to_word(&self) -> (r: u16) {
        self.raw
    }
}

impl Ttf {
    /// The raw time field, covering the whole word.
    pub fn time(&self) -> (r: u16)
        ensures
            r == self.word(),
    {
        self.raw
    }

    /// The time in seconds, rounded to the nearest second (the register
    /// step is 45/8 seconds).
    pub fn to_seconds(&self) -> (r: u32)
        ensures
            r as int == round_div(self.word() * 45, 8),
    {
        let q = (self.raw as u64 * 45 + 4) / 8;
        proof {
            vstd::arithmetic::div_mod::lemma_div_is_ordered(
                self.raw as u64 * 45 + 4,
                (0xFFFF * 45 + 4) as int,
                8,
            );
        }
        q as u32
    }

    /// The time in minutes, rounded to the nearest minute (the register
    /// step is 3/32 minutes).
    pub fn to_minutes(&self) -> (r: u32)
        ensures
            r as int == round_div(self.word() * 3, 32),
    {
        let q = (self.raw as u64 * 3 + 16) / 32;
        proof {
            vstd::arithmetic::div_mod::lemma_div_is_ordered(
                self.raw as u64 * 3 + 16,
                (0xFFFF * 3 + 16) as int,
                32,
            );
        }
        q as u32
    }

    /// The time in hours, rounded to the nearest hour (the register step is
    /// 1/640 hours).
    pub fn to_hours(&self) -> (r: u32)
        ensures
            r as int == round_div(self.word() as int, 640),
    {
        let q = (self.raw as u64 + 320) / 640;
        proof {
            vstd::arithmetic::div_mod::lemma_div_is_ordered(self.raw as u64 + 320, (0xFFFF + 320) as int, 640);
        }
        q as u32
    }

    /// Builds the register from a time in seconds, truncated to the
    /// register step and saturated to the representable range.
    pub fn from_seconds(seconds: u32) -> (r: Self)
        ensures
            r.word() == time_word_of_seconds(seconds),
    {
        let v = seconds as u64 * 8 / 45;
        if v > 0xFFFF {
            Ttf { raw: 0xFFFF }
        } else {
            Ttf { raw: v as u16 }
        }
    }
}

/// The TTE register (11h): the estimated time to empty, with a step of
/// 5.625 seconds.
#[derive(Clone, Copy, Debug, PartialEq, Eq, Structural)]
pub struct Tte {
    raw: u16,
}

impl BitField for Tte {
    const REGISTER: u8 = Register::TTE;

    closed spec fn word(&self) -> u16 {
        self.raw
    }

    fn from_word(word: u16) -> (r: Self) {
        Tte { raw: word }
    }

    fn to_word(&self) -> (r: u16) {
        self.raw
    }
}

impl Tte {
    /// The raw time field, covering the whole word.
    pub fn time(&self) -> (r: u16)
        ensures
            r == self.word(),
    {
        self.raw
    }

    /// The time in seconds, rounded to the nearest second (the register
    /// step is 45/8 seconds).
    pub fn to_seconds(&self) -> (r: u32)
        ensures
            r as int == round_div(self.word() * 45, 8),
    {
        let q = (self.raw as u64 * 45 + 4) / 8;
        proof {
            vstd::arithmetic::div_mod::lemma_div_is_ordered(
                self.raw as u64 * 45 + 4,
                (0xFFFF * 45 + 4) as int,
                8,
            );
        }
        q as u32
    }

    /// The time in minutes, rounded to the nearest minute (the register
    /// step is 3/32 minutes).
    pub fn to_minutes(&self) -> (r: u32)
        ensures
            r as int == round_div(self.word() * 3, 32),
    {
        let q = (self.raw as u64 * 3 + 16) / 32;
        proof {
            vstd::arithmetic::div_mod::lemma_div_is_ordered(
                self.raw as u64 * 3 + 16,
                (0xFFFF * 3 + 16) as int,
                32,
            );
        }
        q as u32
    }

    /// The time in hours, rounded to the nearest hour (the register step is
    /// 1/640 hours).
    pub fn to_hours(&self) -> (r: u32)
        ensures
            r as int == round_div(self.word() as int, 640),
    {
        let q = (self.raw as u64 + 320) / 640;
        proof {
            vstd::arithmetic::div_mod::lemma_div_is_ordered(self.raw as u64 + 320, (0xFFFF + 320) as int, 640);
        }
        q as u32
    }

    /// Builds the register from a time in seconds, truncated to the
    /// register step and saturated to the representable range.
    pub fn from_seconds(seconds: u32) -> (r: Self)
        ensures
            r.word() == time_word_of_seconds(seconds),
    {
        let v = seconds as u64 * 8 / 45;
        if v > 0xFFFF {
            Tte { raw: 0xFFFF }
        } else {
            Tte { raw: v as u16 }
        }
    }
}

} // verus!

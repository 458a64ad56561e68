//! The driver: the register access layer and the EZ-Config initialization
//! state machine, specified against a ghost log of bus transactions.
//!
//! Nothing is assumed about the device or the transport. Instead, every
//! register operation appends to a ghost log the transaction it performed
//! and the bytes that actually crossed the bus, and each contract pins down
//! exactly which transactions a call adds, for every response the device
//! may give. The EZ-Config contract, in particular, fixes the full ordered
//! write sequence of the initialization procedure.

use vstd::prelude::*;

use crate::error::Error;
use crate::registers::high_byte;
use crate::registers::low_byte;
use crate::registers::FStat;
use crate::registers::HibCfg;
use crate::registers::ModelCfg;
use crate::registers::OutputRegister;
use crate::registers::Register;
use crate::registers::SoftWakeup;
use crate::registers::Status;
use crate::registers::VEmpty;
use crate::traits::BitField;
use crate::traits::Delay;
use crate::traits::Model;
use crate::traits::RegisterResolver;
use crate::traits::Transport;

verus! {

/// The device's fixed 7-bit bus address: the datasheet's 8-bit write
/// address 0x6C without its direction bit.
pub const ADDR: u8 = 0x36;

/// The default poll budget: how many times a polling loop may re-read a
/// register before giving up with `Error::PollBudgetExhausted`. Every loop
/// must provably terminate, so a budget always exists; the default is the
/// largest expressible, about 16 months of polling at one read every
/// 10 ms, so by default the driver polls indefinitely for any practical
/// purpose, as the device's documented sub-second response times assume.
/// A caller wanting a real bound opts in through `set_poll_budget`.
pub const DEFAULT_POLL_BUDGET: u32 = u32::MAX;

/// One completed bus transaction, as the driver's ghost log records it,
/// holding the exact bytes written to and read from the bus.
pub enum BusTxn {
    /// A write of `bytes` to the device at `address`.
    Write { address: u8, bytes: Seq<u8> },
    /// A combined transaction at `address`: `written` sent, then `read`
    /// received.
    WriteRead { address: u8, written: Seq<u8>, read: Seq<u8> },
    /// A pause of `ms` milliseconds between transactions.
    Wait { ms: u32 },
}

/// The transaction a single-register write performs: one frame holding the
/// register address followed by the word, least-significant byte first.
pub open spec fn reg_write(register: u8, value: u16) -> BusTxn {
    BusTxn::Write { address: ADDR, bytes: seq![register, low_byte(value), high_byte(value)] }
}

/// The transaction a single-register read performs: the register address
/// written, then the word's two bytes read back, least-significant first.
pub open spec fn reg_read(register: u8, value: u16) -> BusTxn {
    BusTxn::WriteRead {
        address: ADDR,
        written: seq![register],
        read: seq![low_byte(value), high_byte(value)],
    }
}

/// A pause between transactions.
pub open spec fn wait(ms: u32) -> BusTxn {
    BusTxn::Wait { ms }
}

/// `new_log` carries on from `old_log`: the old transactions stand
/// unchanged at its front.
pub open spec fn log_extends(old_log: Seq<BusTxn>, new_log: Seq<BusTxn>) -> bool {
    old_log.is_prefix_of(new_log)
}

/// A log extends itself after any further transactions are appended.
proof fn lemma_extends_append(l: Seq<BusTxn>, x: Seq<BusTxn>)
    ensures
        log_extends(l, l + x),
{
    assert((l + x).take(l.len() as int) =~= l);
}

/// Extension is transitive.
proof fn lemma_extends_trans(a: Seq<BusTxn>, b: Seq<BusTxn>, c: Seq<BusTxn>)
    requires
        log_extends(a, b),
        log_extends(b, c),
    ensures
        log_extends(a, c),
{
    assert(c.take(a.len() as int) =~= b.take(a.len() as int));
}

/// The transactions of one write-and-verify attempt: the write, a one
/// millisecond settling pause, and the read-back.
pub open spec fn verify_attempt(register: u8, data: u16, readback: u16) -> Seq<BusTxn> {
    seq![reg_write(register, data), wait(1), reg_read(register, readback)]
}

/// The transactions of consecutive write-and-verify attempts whose
/// read-backs were `reads`, in order.
pub open spec fn verify_attempts_trace(register: u8, data: u16, reads: Seq<u16>) -> Seq<BusTxn>
    decreases reads.len(),
{
    if reads.len() == 0 {
        Seq::empty()
    } else {
        verify_attempts_trace(register, data, reads.drop_last()) + verify_attempt(
            register,
            data,
            reads.last(),
        )
    }
}

/// One more attempt extends the attempt trace at its end.
proof fn lemma_verify_attempts_trace_push(
    register: u8,
    data: u16,
    reads: Seq<u16>,
    readback: u16,
)
    ensures
        verify_attempts_trace(register, data, reads.push(readback)) == verify_attempts_trace(
            register,
            data,
            reads,
        ) + verify_attempt(register, data, readback),
{
    let r2 = reads.push(readback);
    assert(r2.drop_last() =~= reads);
}

/// The read-backs of a verified write that ended in success: at most four
/// attempts, every read-back but the last a mismatch, and the last equal
/// to the written value.
pub open spec fn verify_reads_ok(data: u16, reads: Seq<u16>) -> bool {
    &&& 1 <= reads.len() <= 4
    &&& forall|i: int| 0 <= i < reads.len() - 1 ==> reads[i] != data
    &&& reads.last() == data
}

/// The read-backs of a verified write that failed: exactly four attempts,
/// one initial and three retries, every read-back a mismatch.
pub open spec fn verify_reads_failed(data: u16, reads: Seq<u16>) -> bool {
    &&& reads.len() == 4
    &&& forall|i: int| 0 <= i < reads.len() ==> reads[i] != data
}

/// The transactions of the poll iterations that were still waiting: for
/// each word read with the polled bits still set, the read and the 10 ms
/// pause that followed it.
pub open spec fn poll_steps(register: u8, polls: Seq<u16>) -> Seq<BusTxn>
    decreases polls.len(),
{
    if polls.len() == 0 {
        Seq::empty()
    } else {
        poll_steps(register, polls.drop_last()) + seq![
            reg_read(register, polls.last()),
            wait(10),
        ]
    }
}

/// One more waiting iteration extends the poll trace at its end.
proof fn lemma_poll_steps_push(register: u8, polls: Seq<u16>, word: u16)
    ensures
        poll_steps(register, polls.push(word)) == poll_steps(register, polls) + seq![
            reg_read(register, word),
            wait(10),
        ],
{
    let p2 = polls.push(word);
    assert(p2.drop_last() =~= polls);
}

/// The ModelCfg word the initialization procedure writes: the refresh
/// command bit and, for a charge voltage above 4275 mV, the high-voltage
/// model bit beside it.
pub open spec fn model_cfg_word(config: EzConfig) -> u16 {
    if config.charge_voltage_mv > 4275 {
        0x8400
    } else {
        0x8000
    }
}

/// The device responses observed during one successful EZ-Config run:
/// together with the configuration they determine the run's bus trace
/// exactly. When the initial Status read shows POR clear, only `status0`
/// and the closing-phase fields are meaningful.
pub struct EzConfigRun {
    /// The Status word of the initial power-on-reset check.
    pub status0: u16,
    /// The FStat words read while data was still not ready (DNR set).
    pub dnr_polls: Seq<u16>,
    /// The FStat word that ended the wait, DNR clear.
    pub dnr_last: u16,
    /// The HibCfg word saved before forcing active mode and restored
    /// after the model reload.
    pub hib_cfg: u16,
    /// The ModelCfg words read while the model reload was in progress.
    pub refresh_polls: Seq<u16>,
    /// The ModelCfg word that ended the wait, refresh bit clear.
    pub refresh_last: u16,
    /// The Status word read back before clearing the POR bit.
    pub status1: u16,
    /// The read-backs of the verified Status write.
    pub verify_reads: Seq<u16>,
    /// The diagnostic charge status snapshot read at the end.
    pub charge_status: BatteryChargeStatus,
}

/// The seven configuration writes of the model-loading phase, in their
/// mandatory order: the soft-wakeup sequence, the three battery
/// parameters, and the model selection that commands the reload.
pub open spec fn ez_load_writes(config: EzConfig) -> Seq<BusTxn> {
    seq![
        reg_write(Register::SOFT_WAKEUP, SoftWakeup::SOFT_WAKEUP),
        reg_write(Register::HIB_CFG, 0),
        reg_write(Register::SOFT_WAKEUP, SoftWakeup::CLEAR),
        reg_write(Register::DESIGN_CAP, config.design_cap_mah),
        reg_write(Register::I_CHG_TERM, config.i_chg_term_ma),
        reg_write(Register::V_EMPTY, config.v_empty_mv.word()),
        reg_write(Register::MODEL_CFG, model_cfg_word(config)),
    ]
}

/// The model-loading phase's transactions up to and including the
/// ModelCfg write: the data-ready wait, the hibernate-configuration save,
/// and the seven configuration writes.
pub open spec fn ez_load_until_model_write(
    config: EzConfig,
    dnr_polls: Seq<u16>,
    dnr_last: u16,
    hib_cfg: u16,
) -> Seq<BusTxn> {
    poll_steps(Register::F_STAT, dnr_polls) + seq![
        reg_read(Register::F_STAT, dnr_last),
        reg_read(Register::HIB_CFG, hib_cfg),
    ] + ez_load_writes(config)
}

/// The bus trace of the model-loading phase, entered only when POR was
/// set: wait for data-ready, save the hibernate configuration, force
/// active mode with the soft-wakeup sequence, write the battery
/// parameters, command the model reload and wait for it to finish,
/// restore the hibernate configuration.
pub open spec fn ez_load_model_trace_parts(
    config: EzConfig,
    dnr_polls: Seq<u16>,
    dnr_last: u16,
    hib_cfg: u16,
    refresh_polls: Seq<u16>,
    refresh_last: u16,
) -> Seq<BusTxn> {
    ez_load_until_model_write(config, dnr_polls, dnr_last, hib_cfg) + poll_steps(
        Register::MODEL_CFG,
        refresh_polls,
    ) + seq![reg_read(Register::MODEL_CFG, refresh_last)] + seq![
        reg_write(Register::HIB_CFG, hib_cfg),
    ]
}

/// The model-loading phase's trace, over the run's recorded responses.
pub open spec fn ez_load_model_trace(config: EzConfig, run: EzConfigRun) -> Seq<BusTxn> {
    ez_load_model_trace_parts(
        config,
        run.dnr_polls,
        run.dnr_last,
        run.hib_cfg,
        run.refresh_polls,
        run.refresh_last,
    )
}

/// What the model-loading phase's responses satisfy: each poll ended
/// exactly when its flag cleared.
pub open spec fn ez_load_ok(
    dnr_polls: Seq<u16>,
    dnr_last: u16,
    refresh_polls: Seq<u16>,
    refresh_last: u16,
) -> bool {
    &&& (forall|i: int| 0 <= i < dnr_polls.len() ==> (#[trigger] dnr_polls[i] & FStat::DNR) != 0)
    &&& (dnr_last & FStat::DNR) == 0
    &&& (forall|i: int|
        0 <= i < refresh_polls.len() ==> (#[trigger] refresh_polls[i] & ModelCfg::REFRESH) != 0)
    &&& (refresh_last & ModelCfg::REFRESH) == 0
}

/// The bus trace of the closing phase, run unconditionally: read the
/// Status word, write it back with only the POR bit cleared, verify that
/// write with the retrying verified-write path, and read the diagnostic
/// charge status snapshot.
pub open spec fn ez_clear_por_trace_parts(
    status1: u16,
    verify_reads: Seq<u16>,
    charge_status: BatteryChargeStatus,
) -> Seq<BusTxn> {
    seq![
        reg_read(Register::STATUS, status1),
        reg_write(Register::STATUS, status1 & 0xFFFD),
    ] + verify_attempts_trace(Register::STATUS, status1 & 0xFFFD, verify_reads) + seq![
        reg_read(OutputRegister::REP_CAP, charge_status.rep_cap),
        reg_read(OutputRegister::REP_SOC, charge_status.rep_soc),
        reg_read(OutputRegister::TTE, charge_status.tte),
    ]
}

/// The closing phase's trace, over the run's recorded responses.
pub open spec fn ez_clear_por_trace(run: EzConfigRun) -> Seq<BusTxn> {
    ez_clear_por_trace_parts(run.status1, run.verify_reads, run.charge_status)
}

/// What a successful run's responses satisfy: each poll ended exactly when
/// its flag cleared, and the verified Status write succeeded.
pub open spec fn ez_run_ok(config: EzConfig, run: EzConfigRun) -> bool {
    &&& ez_load_ok(run.dnr_polls, run.dnr_last, run.refresh_polls, run.refresh_last)
    &&& verify_reads_ok(run.status1 & 0xFFFD, run.verify_reads)
}

/// The full bus trace of a successful EZ-Config run: the POR check, the
/// model-loading phase when and only when POR was set, and the POR clear.
pub open spec fn ez_config_trace(config: EzConfig, run: EzConfigRun) -> Seq<BusTxn> {
    seq![reg_read(Register::STATUS, run.status0)] + (if (run.status0 & Status::POR) != 0 {
        ez_load_model_trace(config, run)
    } else {
        Seq::empty()
    }) + ez_clear_por_trace(run)
}

/// The transactions a verified write completed when it ended in success:
/// the new log carries on from the old with the attempt trace of some
/// successful run of read-backs.
pub open spec fn verify_ok_from(
    register: u8,
    data: u16,
    old_log: Seq<BusTxn>,
    new_log: Seq<BusTxn>,
) -> bool {
    exists|reads: Seq<u16>|
        verify_reads_ok(data, reads) && new_log == old_log + #[trigger] verify_attempts_trace(
            register,
            data,
            reads,
        )
}

/// The transactions a verified write completed when it gave up: four
/// mismatched attempts, the last read-back being `read`.
pub open spec fn verify_failed_from(
    register: u8,
    data: u16,
    read: u16,
    old_log: Seq<BusTxn>,
    new_log: Seq<BusTxn>,
) -> bool {
    exists|reads: Seq<u16>|
        verify_reads_failed(data, reads) && read == reads.last() && new_log == old_log
            + #[trigger] verify_attempts_trace(register, data, reads)
}

/// The transactions a verified write completed when the transport failed
/// under it: some mismatched attempts, then nothing after the failing
/// transaction — at most the write and settling pause of the attempt
/// whose read-back failed.
pub open spec fn verify_aborted_from(
    register: u8,
    data: u16,
    old_log: Seq<BusTxn>,
    new_log: Seq<BusTxn>,
) -> bool {
    exists|reads: Seq<u16>|
        {
            &&& reads.len() <= 3
            &&& (forall|i: int| 0 <= i < reads.len() ==> reads[i] != data)
            &&& (new_log == old_log + #[trigger] verify_attempts_trace(register, data, reads)
                || new_log == old_log + verify_attempts_trace(register, data, reads) + seq![
                reg_write(register, data),
                wait(1),
            ])
        }
}

/// The transactions a poll completed when the transport failed under it:
/// some still-waiting reads, each followed by its pause, and nothing
/// after the failing read.
pub open spec fn poll_aborted_from(
    register: u8,
    mask: u16,
    old_log: Seq<BusTxn>,
    new_log: Seq<BusTxn>,
) -> bool {
    exists|polls: Seq<u16>|
        (forall|i: int| 0 <= i < polls.len() ==> (#[trigger] polls[i] & mask) != 0) && new_log
            == old_log + poll_steps(register, polls)
}

/// The transactions a poll completed when its budget ran out: exactly
/// `budget` still-waiting reads with their pauses, then one more read
/// that still showed the masked bits set.
pub open spec fn poll_budget_from(
    register: u8,
    mask: u16,
    budget: int,
    old_log: Seq<BusTxn>,
    new_log: Seq<BusTxn>,
) -> bool {
    exists|polls: Seq<u16>, last: u16|
        {
            &&& polls.len() == budget
            &&& (forall|i: int| 0 <= i < polls.len() ==> (#[trigger] polls[i] & mask) != 0)
            &&& (last & mask) != 0
            &&& new_log == old_log + poll_steps(register, polls) + seq![reg_read(register, last)]
        }
}

/// The transactions the charge-status snapshot completed when a read
/// failed under it: a strict prefix of its three reads, in order, and
/// nothing after the failing one.
pub open spec fn charge_status_aborted_from(old_log: Seq<BusTxn>, new_log: Seq<BusTxn>) -> bool {
    ||| new_log == old_log
    ||| exists|c: u16| new_log == old_log + seq![reg_read(OutputRegister::REP_CAP, c)]
    ||| exists|c: u16, s: u16|
        new_log == old_log + seq![
            reg_read(OutputRegister::REP_CAP, c),
            reg_read(OutputRegister::REP_SOC, s),
        ]
}

/// The transactions the model-loading phase completed when the transport
/// failed under it: an in-order prefix of its trace, cut at the failing
/// call, with nothing after it — in particular, the hibernate
/// configuration is not restored on abort.
pub open spec fn ez_load_aborted_from(
    config: EzConfig,
    old_log: Seq<BusTxn>,
    new_log: Seq<BusTxn>,
) -> bool {
    ||| poll_aborted_from(Register::F_STAT, FStat::DNR, old_log, new_log)  // failed reading FStat
    ||| exists|dp: Seq<u16>, dl: u16|
        #![trigger poll_steps(Register::F_STAT, dp), reg_read(Register::F_STAT, dl)]
        {
            // failed reading HibCfg
            &&& (forall|i: int| 0 <= i < dp.len() ==> (#[trigger] dp[i] & FStat::DNR) != 0)
            &&& (dl & FStat::DNR) == 0
            &&& new_log == old_log + poll_steps(Register::F_STAT, dp) + seq![
                reg_read(Register::F_STAT, dl),
            ]
        }
    ||| exists|dp: Seq<u16>, dl: u16, h: u16, k: int|
        #![trigger poll_steps(Register::F_STAT, dp), reg_read(Register::F_STAT, dl), reg_read(Register::HIB_CFG, h), ez_load_writes(config).take(k)]
        {
            // one of the seven configuration writes failed
            &&& (forall|i: int| 0 <= i < dp.len() ==> (#[trigger] dp[i] & FStat::DNR) != 0)
            &&& (dl & FStat::DNR) == 0
            &&& 0 <= k < 7
            &&& new_log == old_log + poll_steps(Register::F_STAT, dp) + seq![
                reg_read(Register::F_STAT, dl),
                reg_read(Register::HIB_CFG, h),
            ] + ez_load_writes(config).take(k)
        }
    ||| exists|dp: Seq<u16>, dl: u16, h: u16|
        #![trigger ez_load_until_model_write(config, dp, dl, h)]
        {
            // failed reading ModelCfg while waiting for the reload
            &&& (forall|i: int| 0 <= i < dp.len() ==> (#[trigger] dp[i] & FStat::DNR) != 0)
            &&& (dl & FStat::DNR) == 0
            &&& poll_aborted_from(
                Register::MODEL_CFG,
                ModelCfg::REFRESH,
                old_log + ez_load_until_model_write(config, dp, dl, h),
                new_log,
            )
        }
    ||| exists|dp: Seq<u16>, dl: u16, h: u16, rp: Seq<u16>, rl: u16|
        #![trigger ez_load_until_model_write(config, dp, dl, h), poll_steps(Register::MODEL_CFG, rp), reg_read(Register::MODEL_CFG, rl)]
        {
            // the hibernate-configuration restore failed
            &&& ez_load_ok(dp, dl, rp, rl)
            &&& new_log == old_log + ez_load_until_model_write(config, dp, dl, h) + poll_steps(
                Register::MODEL_CFG,
                rp,
            ) + seq![reg_read(Register::MODEL_CFG, rl)]
        }
}

/// The transactions the closing phase completed when the transport failed
/// under it: an in-order prefix of its trace, cut at the failing call,
/// with nothing after it.
pub open spec fn ez_clear_por_aborted_from(old_log: Seq<BusTxn>, new_log: Seq<BusTxn>) -> bool {
    ||| new_log == old_log  // the Status read failed
    ||| exists|s1: u16|
        new_log == old_log + seq![reg_read(Register::STATUS, s1)]  // the plain Status write failed
    ||| exists|s1: u16|
        verify_aborted_from(
            Register::STATUS,
            s1 & 0xFFFD,
            old_log + seq![
                reg_read(Register::STATUS, s1),
                reg_write(Register::STATUS, (s1 & 0xFFFD)),
            ],
            new_log,
        )  // the transport failed inside the verified write
    ||| exists|s1: u16, reads: Seq<u16>|
        {
            // the diagnostic snapshot failed after a successful verify
            &&& verify_reads_ok(s1 & 0xFFFD, reads)
            &&& charge_status_aborted_from(
                old_log + seq![
                    reg_read(Register::STATUS, s1),
                    reg_write(Register::STATUS, (s1 & 0xFFFD)),
                ] + #[trigger] verify_attempts_trace(Register::STATUS, s1 & 0xFFFD, reads),
                new_log,
            )
        }
}

/// The transactions completed before the closing phase begins, given the
/// word the initial Status read returned: with POR set, the complete
/// model-loading phase; with POR clear, nothing further.
pub open spec fn ez_body_prefix(
    config: EzConfig,
    status0: u16,
    old_log: Seq<BusTxn>,
    mid_log: Seq<BusTxn>,
) -> bool {
    if (status0 & Status::POR) != 0 {
        exists|dp: Seq<u16>, dl: u16, h: u16, rp: Seq<u16>, rl: u16|
            ez_load_ok(dp, dl, rp, rl) && mid_log == old_log + seq![
                reg_read(Register::STATUS, status0),
            ] + #[trigger] ez_load_model_trace_parts(config, dp, dl, h, rp, rl)
    } else {
        mid_log == old_log + seq![reg_read(Register::STATUS, status0)]
    }
}

/// Every write in a run of write-and-verify attempts targets the register
/// being verified.
pub proof fn lemma_verify_trace_writes_target(register: u8, data: u16, reads: Seq<u16>)
    ensures
        forall|i: int|
            0 <= i < verify_attempts_trace(register, data, reads).len() ==> ((
            #[trigger] verify_attempts_trace(register, data, reads)[i]) matches BusTxn::Write {
                bytes,
                ..
            } ==> bytes[0] == register),
    decreases reads.len(),
{
    if reads.len() > 0 {
        lemma_verify_trace_writes_target(register, data, reads.drop_last());
    }
}

/// When the initial status read shows POR already clear, a successful run
/// performs exactly one status read and then goes straight to clearing
/// POR: its whole trace is that read followed by the closing phase, and
/// every write in it targets the Status register alone, so the
/// design-capacity, model-config and hibernate-config registers are never
/// written.
pub proof fn lemma_ez_trace_por_clear(config: EzConfig, run: EzConfigRun)
    requires
        (run.status0 & Status::POR) == 0,
    ensures
        ez_config_trace(config, run) == seq![reg_read(Register::STATUS, run.status0)]
            + ez_clear_por_trace(run),
        forall|i: int|
            0 <= i < ez_config_trace(config, run).len() ==> ((
            #[trigger] ez_config_trace(config, run)[i]) matches BusTxn::Write { bytes, .. }
                ==> bytes[0] == Register::STATUS),
{
    let trace = ez_config_trace(config, run);
    assert(trace =~= seq![reg_read(Register::STATUS, run.status0)] + ez_clear_por_trace(run));
    lemma_verify_trace_writes_target(
        Register::STATUS,
        run.status1 & 0xFFFD,
        run.verify_reads,
    );
    assert forall|i: int| 0 <= i < trace.len() implies ((#[trigger] trace[i])
        matches BusTxn::Write { bytes, .. } ==> bytes[0] == Register::STATUS) by {
        let v = verify_attempts_trace(Register::STATUS, run.status1 & 0xFFFD, run.verify_reads);
        if 3 <= i < 3 + v.len() {
            assert(trace[i] == v[i - 3]);
        }
    }
}

/// The EZ-Config inputs: the four battery parameters the procedure writes
/// into the gauge, supplied once and consumed whole.
#[derive(Clone, Copy, Debug)]
pub struct EzConfig {
    /// The charge voltage, in millivolts; above 4275 mV the high-voltage
    /// model variant is selected.
    pub charge_voltage_mv: u16,
    /// The expected capacity of the cell, in milliamp-hours.
    pub design_cap_mah: u16,
    /// The charge termination current, in milliamps.
    pub i_chg_term_ma: u16,
    /// The empty and recovery voltage thresholds.
    pub v_empty_mv: VEmpty,
}

/// A snapshot of the battery's charge status, read from the output
/// registers.
#[derive(Clone, Copy, Debug, PartialEq, Eq, Structural)]
pub struct BatteryChargeStatus {
    /// RepCap: reported remaining capacity, as a raw capacity register
    /// word.
    pub rep_cap: u16,
    /// RepSOC: reported state of charge, as a raw percentage register
    /// word.
    pub rep_soc: u16,
    /// TTE: estimated time to empty, as a raw time register word
    /// (5.625 s per count).
    pub tte: u16,
}

/// The MAX1726x driver. It owns the transport handle and a register
/// resolver, and keeps a ghost log of every bus transaction it has
/// performed.
pub struct Max1726x<M, T, R> {
    transport: T,
    register_resolver: R,
    poll_budget: u32,
    log: Ghost<Seq<BusTxn>>,
    model: core::marker::PhantomData<M>,
}

impl<M: Model, T: Transport, R: RegisterResolver> Max1726x<M, T, R> {
    /// The ghost log of every bus transaction performed so far, oldest
    /// first.
    pub closed spec fn log(&self) -> Seq<BusTxn> {
        self.log@
    }

    /// The register resolver this driver converts physical quantities
    /// with.
    pub closed spec fn resolver(&self) -> R {
        self.register_resolver
    }

    /// How many times a polling loop may re-read a register before giving
    /// up.
    pub closed spec fn spec_poll_budget(&self) -> u32 {
        self.poll_budget
    }

    /// How many times a polling loop may re-read a register before giving
    /// up.
    pub fn poll_budget(&self) -> (r: u32)
        ensures
            r == self.spec_poll_budget(),
    {
        self.poll_budget
    }

    /// Bounds the polling loops to the given number of re-reads each: the
    /// explicit opt-in for callers that prefer a timeout over waiting out
    /// a device that never reports ready.
    pub fn set_poll_budget(&mut self, budget: u32)
        ensures
            final(self).spec_poll_budget() == budget,
            final(self).log() == old(self).log(),
            final(self).resolver() == old(self).resolver(),
    {
        self.poll_budget = budget;
    }

    /// The transport handle the driver holds.
    pub closed spec fn spec_transport(&self) -> T {
        self.transport
    }

    /// Releases the driver, handing its transport handle back.
    pub fn into_transport(self) -> (r: T)
        ensures
            r == self.spec_transport(),
    {
        self.transport
    }

    /// Creates a new driver instance from a transport handle and a
    /// register resolver.
    pub fn new(transport: T, register_resolver: R) -> (r: Self)
        ensures
            r.log() == Seq::<BusTxn>::empty(),
            r.resolver() == register_resolver,
            r.spec_poll_budget() == DEFAULT_POLL_BUDGET,
    {
        Max1726x {
            transport,
            register_resolver,
            poll_budget: DEFAULT_POLL_BUDGET,
            log: Ghost(Seq::empty()),
            model: core::marker::PhantomData,
        }
    }

    /// Writes a register word, least-significant byte first, in one 3-byte
    /// frame.
    pub fn write_register(&mut self, register: u8, data: u16) -> (r: Result<(), Error<T::Error>>)
        ensures
            final(self).resolver() == old(self).resolver(),
            final(self).spec_poll_budget() == old(self).spec_poll_budget(),
            r is Ok ==> final(self).log() == old(self).log().push(reg_write(register, data)),
            r is Err ==> final(self).log() == old(self).log(),
            r matches Err(e) ==> e is I2c,
    {
        let payload: [u8; 3] = [register, (data & 0xFF) as u8, ((data & 0xFF00) >> 8) as u8];
        match self.transport.write(ADDR, payload.as_slice()) {
            Ok(()) => {
                proof {
                    assert(((data & 0xFF00) >> 8) as u8 == (data >> 8) as u8) by (bit_vector);
                    assert(payload@ =~= seq![register, low_byte(data), high_byte(data)]);
                }
                self.log = Ghost(
                    self.log@.push(BusTxn::Write { address: ADDR, bytes: payload@ }),
                );
                Ok(())
            },
            Err(e) => Err(Error::I2c(e)),
        }
    }

    /// Reads a register's two bytes, returned in the order received
    /// (least-significant byte first).
    pub fn read_register(&mut self, register: u8) -> (r: Result<[u8; 2], Error<T::Error>>)
        ensures
            final(self).resolver() == old(self).resolver(),
            final(self).spec_poll_budget() == old(self).spec_poll_budget(),
            r matches Ok(data) ==> final(self).log() == old(self).log().push(
                BusTxn::WriteRead { address: ADDR, written: seq![register], read: data@ },
            ),
            r is Err ==> final(self).log() == old(self).log(),
            r matches Err(e) ==> e is I2c,
    {
        let out: [u8; 1] = [register];
        let mut data: [u8; 2] = [0u8, 0u8];
        match self.transport.write_read(ADDR, out.as_slice(), &mut data) {
            Ok(()) => {
                proof {
                    assert(out@ =~= seq![register]);
                }
                self.log = Ghost(
                    self.log@.push(
                        BusTxn::WriteRead { address: ADDR, written: out@, read: data@ },
                    ),
                );
                Ok(data)
            },
            Err(e) => Err(Error::I2c(e)),
        }
    }

    /// Reads a register word, reassembled from its little-endian bytes.
    pub fn read_register_as_u16(&mut self, register: u8) -> (r: Result<u16, Error<T::Error>>)
        ensures
            final(self).resolver() == old(self).resolver(),
            final(self).spec_poll_budget() == old(self).spec_poll_budget(),
            r matches Ok(word) ==> final(self).log() == old(self).log().push(
                reg_read(register, word),
            ),
            r is Err ==> final(self).log() == old(self).log(),
            r matches Err(e) ==> e is I2c,
    {
        let data = match self.read_register(register) {
            Ok(d) => d,
            Err(e) => {
                return Err(e);
            },
        };
        let word = ((data[1] as u16) << 8) | (data[0] as u16);
        proof {
            let lo = data@[0];
            let hi = data@[1];
            assert((((hi as u16) << 8) | (lo as u16)) & 0xFF == lo && ((((hi as u16) << 8) | (
            lo as u16)) >> 8) as u8 == hi) by (bit_vector);
            assert(data@ =~= seq![low_byte(word), high_byte(word)]);
        }
        Ok(word)
    }

    /// Reads a register and decodes it as the given bitfield type.
    pub fn read_register_as_bitfield<B: BitField>(&mut self) -> (r: Result<B, Error<T::Error>>)
        ensures
            final(self).resolver() == old(self).resolver(),
            final(self).spec_poll_budget() == old(self).spec_poll_budget(),
            r matches Ok(b) ==> final(self).log() == old(self).log().push(
                reg_read(B::REGISTER, b.word()),
            ),
            r is Err ==> final(self).log() == old(self).log(),
            r matches Err(e) ==> e is I2c,
    {
        match self.read_register_as_u16(B::REGISTER) {
            Ok(w) => Ok(B::from_word(w)),
            Err(e) => Err(e),
        }
    }

    /// Encodes a typed bitfield and writes it to its own register.
    pub fn write_bitfield_to_register<B: BitField>(&mut self, bitfield: B) -> (r: Result<
        (),
        Error<T::Error>,
    >)
        ensures
            final(self).resolver() == old(self).resolver(),
            final(self).spec_poll_budget() == old(self).spec_poll_budget(),
            r is Ok ==> final(self).log() == old(self).log().push(
                reg_write(B::REGISTER, bitfield.word()),
            ),
            r is Err ==> final(self).log() == old(self).log(),
            r matches Err(e) ==> e is I2c,
    {
        let data = bitfield.to_word();
        self.write_register(B::REGISTER, data)
    }

    /// Battery voltage, in microvolts, converted from the model's VCell
    /// register.
    pub fn battery_voltage(&mut self) -> (r: Result<u32, Error<T::Error>>)
        ensures
            final(self).resolver() == old(self).resolver(),
            final(self).spec_poll_budget() == old(self).spec_poll_budget(),
            r matches Ok(v) ==> exists|w: u16|
                final(self).log() == old(self).log().push(#[trigger] reg_read(M::V_CELL, w))
                    && v as int == old(self).resolver().voltage_uv(w),
            r is Err ==> final(self).log() == old(self).log(),
            r matches Err(e) ==> e is I2c,
    {
        let register = match self.read_register_as_u16(M::V_CELL) {
            Ok(w) => w,
            Err(e) => {
                return Err(e);
            },
        };
        Ok(self.register_resolver.register_to_voltage(register))
    }

    /// Battery charge or discharge current, in microamps, negative when
    /// discharging, converted from the model's Current register.
    pub fn battery_current(&mut self) -> (r: Result<i32, Error<T::Error>>)
        ensures
            final(self).resolver() == old(self).resolver(),
            final(self).spec_poll_budget() == old(self).spec_poll_budget(),
            r matches Ok(v) ==> exists|w: u16|
                final(self).log() == old(self).log().push(#[trigger] reg_read(M::CURRENT, w))
                    && v as int == old(self).resolver().current_ua(w),
            r is Err ==> final(self).log() == old(self).log(),
            r matches Err(e) ==> e is I2c,
    {
        let register = match self.read_register_as_u16(M::CURRENT) {
            Ok(w) => w,
            Err(e) => {
                return Err(e);
            },
        };
        Ok(self.register_resolver.register_to_current(register))
    }

    /// Battery temperature, in thousandths of a degree Celsius, converted
    /// from the model's Temp register.
    pub fn battery_temperature(&mut self) -> (r: Result<i32, Error<T::Error>>)
        ensures
            final(self).resolver() == old(self).resolver(),
            final(self).spec_poll_budget() == old(self).spec_poll_budget(),
            r matches Ok(v) ==> exists|w: u16|
                final(self).log() == old(self).log().push(#[trigger] reg_read(M::TEMP, w))
                    && v as int == old(self).resolver().temperature_mc(w),
            r is Err ==> final(self).log() == old(self).log(),
            r matches Err(e) ==> e is I2c,
    {
        let register = match self.read_register_as_u16(M::TEMP) {
            Ok(w) => w,
            Err(e) => {
                return Err(e);
            },
        };
        Ok(self.register_resolver.register_to_temperature(register))
    }

    /// Battery state of charge, in thousandths of a percent, converted
    /// from the RepSOC register.
    pub fn battery_state_of_charge(&mut self) -> (r: Result<u32, Error<T::Error>>)
        ensures
            final(self).resolver() == old(self).resolver(),
            final(self).spec_poll_budget() == old(self).spec_poll_budget(),
            r matches Ok(v) ==> exists|w: u16|
                final(self).log() == old(self).log().push(
                    #[trigger] reg_read(OutputRegister::REP_SOC, w),
                ) && v as int == old(self).resolver().percentage_mpct(w),
            r is Err ==> final(self).log() == old(self).log(),
            r matches Err(e) ==> e is I2c,
    {
        let register = match self.read_register_as_u16(OutputRegister::REP_SOC) {
            Ok(w) => w,
            Err(e) => {
                return Err(e);
            },
        };
        Ok(self.register_resolver.register_to_percentage(register))
    }

    /// Reads the Status register (00h) as its flag set.
    pub fn status_register(&mut self) -> (r: Result<Status, Error<T::Error>>)
        ensures
            final(self).resolver() == old(self).resolver(),
            final(self).spec_poll_budget() == old(self).spec_poll_budget(),
            r matches Ok(st) ==> exists|w: u16|
                final(self).log() == old(self).log().push(
                    #[trigger] reg_read(Register::STATUS, w),
                ) && st.spec_bits() == (w & Status::ALL),
            r is Err ==> final(self).log() == old(self).log(),
            r matches Err(e) ==> e is I2c,
    {
        let word = match self.read_register_as_u16(Register::STATUS) {
            Ok(w) => w,
            Err(e) => {
                return Err(e);
            },
        };
        Ok(Status::from_bits_truncate(word))
    }

    /// Reads the FStat register (3Dh) as its flag set.
    pub fn fstat_register(&mut self) -> (r: Result<FStat, Error<T::Error>>)
        ensures
            final(self).resolver() == old(self).resolver(),
            final(self).spec_poll_budget() == old(self).spec_poll_budget(),
            r matches Ok(st) ==> exists|w: u16|
                final(self).log() == old(self).log().push(
                    #[trigger] reg_read(Register::F_STAT, w),
                ) && st.spec_bits() == (w & FStat::ALL),
            r is Err ==> final(self).log() == old(self).log(),
            r matches Err(e) ==> e is I2c,
    {
        let word = match self.read_register_as_u16(Register::F_STAT) {
            Ok(w) => w,
            Err(e) => {
                return Err(e);
            },
        };
        Ok(FStat::from_bits_truncate(word))
    }

    /// Reads the HibCfg register (BAh) as its typed bitfield.
    pub fn hib_cfg_register(&mut self) -> (r: Result<HibCfg, Error<T::Error>>)
        ensures
            final(self).resolver() == old(self).resolver(),
            final(self).spec_poll_budget() == old(self).spec_poll_budget(),
            r matches Ok(h) ==> final(self).log() == old(self).log().push(
                reg_read(Register::HIB_CFG, h.word()),
            ),
            r is Err ==> final(self).log() == old(self).log(),
            r matches Err(e) ==> e is I2c,
    {
        let word = match self.read_register_as_u16(Register::HIB_CFG) {
            Ok(w) => w,
            Err(e) => {
                return Err(e);
            },
        };
        Ok(HibCfg::from_word(word))
    }

    /// Reads the VEmpty register (3Ah) as its typed bitfield.
    pub fn v_empty_register(&mut self) -> (r: Result<VEmpty, Error<T::Error>>)
        ensures
            final(self).resolver() == old(self).resolver(),
            final(self).spec_poll_budget() == old(self).spec_poll_budget(),
            r matches Ok(v) ==> final(self).log() == old(self).log().push(
                reg_read(Register::V_EMPTY, v.word()),
            ),
            r is Err ==> final(self).log() == old(self).log(),
            r matches Err(e) ==> e is I2c,
    {
        let word = match self.read_register_as_u16(Register::V_EMPTY) {
            Ok(w) => w,
            Err(e) => {
                return Err(e);
            },
        };
        Ok(VEmpty::from_word(word))
    }

    /// Reads the battery charge status snapshot: remaining capacity, state
    /// of charge, and time to empty, in that order.
    pub fn battery_charge_status(&mut self) -> (r: Result<
        BatteryChargeStatus,
        Error<T::Error>,
    >)
        ensures
            final(self).resolver() == old(self).resolver(),
            final(self).spec_poll_budget() == old(self).spec_poll_budget(),
            r matches Ok(s) ==> final(self).log() == old(self).log() + seq![
                reg_read(OutputRegister::REP_CAP, s.rep_cap),
                reg_read(OutputRegister::REP_SOC, s.rep_soc),
                reg_read(OutputRegister::TTE, s.tte),
            ],
            r is Err ==> log_extends(old(self).log(), final(self).log())
                && charge_status_aborted_from(old(self).log(), final(self).log()),
            r matches Err(e) ==> e is I2c,
    {
        let rep_cap = match self.read_register_as_u16(OutputRegister::REP_CAP) {
            Ok(w) => w,
            Err(e) => {
                proof {
                    assert(log_extends(old(self).log(), self.log())) by {
                        assert(self.log().take(old(self).log().len() as int) =~= old(self).log());
                    }
                }
                return Err(e);
            },
        };
        let rep_soc = match self.read_register_as_u16(OutputRegister::REP_SOC) {
            Ok(w) => w,
            Err(e) => {
                proof {
                    assert(log_extends(old(self).log(), self.log())) by {
                        assert(self.log().take(old(self).log().len() as int) =~= old(self).log());
                    }
                    assert(self.log() =~= old(self).log() + seq![
                        reg_read(OutputRegister::REP_CAP, rep_cap),
                    ]);
                }
                return Err(e);
            },
        };
        let tte = match self.read_register_as_u16(OutputRegister::TTE) {
            Ok(w) => w,
            Err(e) => {
                proof {
                    assert(log_extends(old(self).log(), self.log())) by {
                        assert(self.log().take(old(self).log().len() as int) =~= old(self).log());
                    }
                    assert(self.log() =~= old(self).log() + seq![
                        reg_read(OutputRegister::REP_CAP, rep_cap),
                        reg_read(OutputRegister::REP_SOC, rep_soc),
                    ]);
                }
                return Err(e);
            },
        };
        let snapshot = BatteryChargeStatus { rep_cap, rep_soc, tte };
        proof {
            assert(self.log() =~= old(self).log() + seq![
                reg_read(OutputRegister::REP_CAP, snapshot.rep_cap),
                reg_read(OutputRegister::REP_SOC, snapshot.rep_soc),
                reg_read(OutputRegister::TTE, snapshot.tte),
            ]);
        }
        Ok(snapshot)
    }

    /// The verified-write retry loop, handing its read-backs out as a
    /// ghost value for callers that reason about the exact trace.
    #[verifier::loop_isolation(false)]
    fn write_and_verify_register_inner<D: Delay>(
        &mut self,
        register: u8,
        data: u16,
        delay: &mut D,
    ) -> (r: Result<Ghost<Seq<u16>>, Error<T::Error>>)
        ensures
            final(self).resolver() == old(self).resolver(),
            final(self).spec_poll_budget() == old(self).spec_poll_budget(),
            r matches Ok(g) ==> verify_reads_ok(data, g@) && final(self).log()
                == old(self).log() + verify_attempts_trace(register, data, g@),
            r is Err ==> log_extends(old(self).log(), final(self).log()),
            r matches Err(e) ==> match e {
                Error::WriteNotVerified { register: rg, write: w, read: rd } => {
                    &&& rg == register
                    &&& w == data
                    &&& verify_failed_from(register, data, rd, old(self).log(), final(self).log())
                },
                Error::I2c(_) => verify_aborted_from(
                    register,
                    data,
                    old(self).log(),
                    final(self).log(),
                ),
                Error::PollBudgetExhausted { .. } => false,
            },
    {
        let ghost base = self.log();
        let ghost mut reads: Seq<u16> = Seq::empty();
        let mut attempt: u8 = 0;
        loop
            invariant
                attempt <= 3,
                reads.len() == attempt as int,
                forall|i: int| 0 <= i < reads.len() ==> reads[i] != data,
                self.log() == base + verify_attempts_trace(register, data, reads),
                self.resolver() == old(self).resolver(),
                self.spec_poll_budget() == old(self).spec_poll_budget(),
            decreases 3 - attempt,
        {
            match self.write_register(register, data) {
                Ok(_) => {},
                Err(e) => {
                    proof {
                        assert(log_extends(base, self.log())) by {
                            assert(self.log().take(base.len() as int) =~= base);
                        }
                    }
                    return Err(e);
                },
            }
            delay.delay_ms(1);
            self.log = Ghost(self.log@.push(wait(1)));
            let readback = match self.read_register_as_u16(register) {
                Ok(w) => w,
                Err(e) => {
                    proof {
                        assert(log_extends(base, self.log())) by {
                            assert(self.log().take(base.len() as int) =~= base);
                        }
                        assert(self.log() =~= base + verify_attempts_trace(
                            register,
                            data,
                            reads,
                        ) + seq![reg_write(register, data), wait(1)]);
                    }
                    return Err(e);
                },
            };
            proof {
                lemma_verify_attempts_trace_push(register, data, reads, readback);
                assert(self.log() =~= base + verify_attempts_trace(
                    register,
                    data,
                    reads.push(readback),
                ));
                reads = reads.push(readback);
            }
            if data == readback {
                return Ok(Ghost(reads));
            }
            if attempt == 3 {
                proof {
                    assert(log_extends(base, self.log())) by {
                        assert(self.log().take(base.len() as int) =~= base);
                    }
                }
                return Err(Error::WriteNotVerified { register, write: data, read: readback });
            }
            attempt = attempt + 1;
        }
    }

    /// Writes a register and reads it back until the value sticks: one
    /// attempt plus up to three retries, with a one millisecond settling
    /// pause between each write and its read-back. Fails with
    /// `Error::WriteNotVerified` if the final read-back still differs.
    pub fn write_and_verify_register<D: Delay>(
        &mut self,
        register: u8,
        data: u16,
        delay: &mut D,
    ) -> (r: Result<(), Error<T::Error>>)
        ensures
            final(self).resolver() == old(self).resolver(),
            final(self).spec_poll_budget() == old(self).spec_poll_budget(),
            r is Ok ==> verify_ok_from(register, data, old(self).log(), final(self).log()),
            r is Err ==> log_extends(old(self).log(), final(self).log()),
            r matches Err(e) ==> match e {
                Error::WriteNotVerified { register: rg, write: w, read: rd } => {
                    &&& rg == register
                    &&& w == data
                    &&& verify_failed_from(register, data, rd, old(self).log(), final(self).log())
                },
                Error::I2c(_) => verify_aborted_from(
                    register,
                    data,
                    old(self).log(),
                    final(self).log(),
                ),
                Error::PollBudgetExhausted { .. } => false,
            },
    {
        match self.write_and_verify_register_inner(register, data, delay) {
            Ok(_) => Ok(()),
            Err(e) => Err(e),
        }
    }

    /// Polls a register every 10 ms until its masked bits read clear,
    /// handing back the final word and, as a ghost value, the words read
    /// while still waiting.
    #[verifier::loop_isolation(false)]
    fn poll_register_until_clear<D: Delay>(&mut self, delay: &mut D, register: u8, mask: u16) -> (r:
        Result<(u16, Ghost<Seq<u16>>), Error<T::Error>>)
        ensures
            final(self).resolver() == old(self).resolver(),
            final(self).spec_poll_budget() == old(self).spec_poll_budget(),
            r matches Ok(pair) ==> {
                &&& (pair.0 & mask) == 0
                &&& forall|i: int| 0 <= i < pair.1@.len() ==> (#[trigger] pair.1@[i] & mask) != 0
                &&& final(self).log() == old(self).log() + poll_steps(register, pair.1@) + seq![
                    reg_read(register, pair.0),
                ]
            },
            r is Err ==> log_extends(old(self).log(), final(self).log()),
            r matches Err(e) ==> match e {
                Error::I2c(_) => poll_aborted_from(
                    register,
                    mask,
                    old(self).log(),
                    final(self).log(),
                ),
                Error::PollBudgetExhausted { register: rg } => rg == register
                    && poll_budget_from(
                    register,
                    mask,
                    old(self).spec_poll_budget() as int,
                    old(self).log(),
                    final(self).log(),
                ),
                Error::WriteNotVerified { .. } => false,
            },
    {
        let ghost base = self.log();
        let budget = self.poll_budget;
        let ghost mut polls: Seq<u16> = Seq::empty();
        let mut attempts: u32 = 0;
        loop
            invariant
                attempts <= budget,
                polls.len() == attempts as int,
                forall|i: int| 0 <= i < polls.len() ==> (#[trigger] polls[i] & mask) != 0,
                self.log() == base + poll_steps(register, polls),
                self.resolver() == old(self).resolver(),
                self.spec_poll_budget() == old(self).spec_poll_budget(),
            decreases budget - attempts,
        {
            let word = match self.read_register_as_u16(register) {
                Ok(w) => w,
                Err(e) => {
                    proof {
                        assert(log_extends(base, self.log())) by {
                            assert(self.log().take(base.len() as int) =~= base);
                        }
                    }
                    return Err(e);
                },
            };
            if word & mask == 0 {
                proof {
                    assert(self.log() =~= base + poll_steps(register, polls) + seq![
                        reg_read(register, word),
                    ]);
                }
                return Ok((word, Ghost(polls)));
            }
            if attempts == budget {
                proof {
                    assert(log_extends(base, self.log())) by {
                        assert(self.log().take(base.len() as int) =~= base);
                    }
                    assert(self.log() =~= base + poll_steps(register, polls) + seq![
                        reg_read(register, word),
                    ]);
                }
                return Err(Error::PollBudgetExhausted { register });
            }
            delay.delay_ms(10);
            self.log = Ghost(self.log@.push(wait(10)));
            proof {
                lemma_poll_steps_push(register, polls, word);
                assert(self.log() =~= base + poll_steps(register, polls.push(word)));
                polls = polls.push(word);
            }
            attempts = attempts + 1;
        }
    }

    /// The model-loading phase, entered only when a power-on reset was
    /// detected: wait for data-ready, leave hibernate mode, write the
    /// battery parameters, command and await the model reload, restore the
    /// hibernate configuration. Hands the responses it observed back as a
    /// ghost record of the phase's trace.
    #[verifier::rlimit(100)]
    #[verifier::spinoff_prover]
    fn ez_load_model<D: Delay>(&mut self, delay: &mut D, config: EzConfig) -> (r: Result<
        Ghost<(Seq<u16>, u16, u16, Seq<u16>, u16)>,
        Error<T::Error>,
    >)
        ensures
            final(self).resolver() == old(self).resolver(),
            final(self).spec_poll_budget() == old(self).spec_poll_budget(),
            r matches Ok(g) ==> ez_load_ok(g@.0, g@.1, g@.3, g@.4) && final(self).log() == old(
                self,
            ).log() + ez_load_model_trace_parts(config, g@.0, g@.1, g@.2, g@.3, g@.4),
            r is Err ==> log_extends(old(self).log(), final(self).log()),
            r matches Err(e) ==> match e {
                Error::I2c(_) => ez_load_aborted_from(config, old(self).log(), final(self).log()),
                Error::WriteNotVerified { .. } => false,
                Error::PollBudgetExhausted { register: rg } => {
                    ||| (rg == Register::F_STAT && poll_budget_from(
                        Register::F_STAT,
                        FStat::DNR,
                        old(self).spec_poll_budget() as int,
                        old(self).log(),
                        final(self).log(),
                    ))
                    ||| (rg == Register::MODEL_CFG && exists|dp: Seq<u16>, dl: u16, h: u16|
                        #![trigger ez_load_until_model_write(config, dp, dl, h)]
                        {
                            &&& (forall|i: int|
                                0 <= i < dp.len() ==> (#[trigger] dp[i] & FStat::DNR) != 0)
                            &&& (dl & FStat::DNR) == 0
                            &&& poll_budget_from(
                                Register::MODEL_CFG,
                                ModelCfg::REFRESH,
                                old(self).spec_poll_budget() as int,
                                old(self).log() + ez_load_until_model_write(config, dp, dl, h),
                                final(self).log(),
                            )
                        })
                },
            },
    {
        let ghost base = self.log();
        let ghost mut done: Seq<BusTxn> = Seq::empty();
        proof {
            assert(self.log() =~= base + done);
        }
        // Wait until the gauge's outputs are valid (FStat.DNR clear).
        let (dnr_last, dnr_ghost) = match self.poll_register_until_clear(
            delay,
            Register::F_STAT,
            FStat::DNR,
        ) {
            Ok(p) => p,
            Err(e) => {
                proof {
                    lemma_extends_append(base, done);
                    lemma_extends_trans(base, base + done, self.log());
                    assert(base + done =~= base);
                }
                return Err(e);
            },
        };
        let ghost dnr_polls = dnr_ghost@;
        proof {
            done = done + poll_steps(Register::F_STAT, dnr_polls) + seq![
                reg_read(Register::F_STAT, dnr_last),
            ];
            assert(self.log() =~= base + done);
        }
        // Save the hibernate configuration, to restore once the model is
        // loaded.
        let hib_cfg = match self.hib_cfg_register() {
            Ok(h) => h,
            Err(e) => {
                proof {
                    lemma_extends_append(base, done);
                    assert(self.log() =~= base + poll_steps(Register::F_STAT, dnr_polls) + seq![
                        reg_read(Register::F_STAT, dnr_last),
                    ]);
                }
                return Err(e);
            },
        };
        let ghost hib_word = hib_cfg.word();
        proof {
            done = done + seq![reg_read(Register::HIB_CFG, hib_word)];
            assert(self.log() =~= base + done);
        }
        // Exit hibernate mode: soft wakeup, force active, clear the
        // command, in this order.
        match self.write_register(Register::SOFT_WAKEUP, SoftWakeup::SOFT_WAKEUP) {
            Ok(_) => {},
            Err(e) => {
                proof {
                    lemma_extends_append(base, done);
                    assert(self.log() =~= base + poll_steps(Register::F_STAT, dnr_polls) + seq![
                        reg_read(Register::F_STAT, dnr_last),
                        reg_read(Register::HIB_CFG, hib_word),
                    ] + ez_load_writes(config).take(0));
                }
                return Err(e);
            },
        }
        proof {
            done = done + seq![reg_write(Register::SOFT_WAKEUP, SoftWakeup::SOFT_WAKEUP)];
            assert(self.log() =~= base + done);
        }
        match self.write_register(Register::HIB_CFG, 0) {
            Ok(_) => {},
            Err(e) => {
                proof {
                    lemma_extends_append(base, done);
                    assert(self.log() =~= base + poll_steps(Register::F_STAT, dnr_polls) + seq![
                        reg_read(Register::F_STAT, dnr_last),
                        reg_read(Register::HIB_CFG, hib_word),
                    ] + ez_load_writes(config).take(1));
                }
                return Err(e);
            },
        }
        proof {
            done = done + seq![reg_write(Register::HIB_CFG, 0)];
            assert(self.log() =~= base + done);
        }
        match self.write_register(Register::SOFT_WAKEUP, SoftWakeup::CLEAR) {
            Ok(_) => {},
            Err(e) => {
                proof {
                    lemma_extends_append(base, done);
                    assert(self.log() =~= base + poll_steps(Register::F_STAT, dnr_polls) + seq![
                        reg_read(Register::F_STAT, dnr_last),
                        reg_read(Register::HIB_CFG, hib_word),
                    ] + ez_load_writes(config).take(2));
                }
                return Err(e);
            },
        }
        proof {
            done = done + seq![reg_write(Register::SOFT_WAKEUP, SoftWakeup::CLEAR)];
            assert(self.log() =~= base + done);
        }
        // Write the battery parameters from the configuration snapshot.
        match self.write_register(Register::DESIGN_CAP, config.design_cap_mah) {
            Ok(_) => {},
            Err(e) => {
                proof {
                    lemma_extends_append(base, done);
                    assert(self.log() =~= base + poll_steps(Register::F_STAT, dnr_polls) + seq![
                        reg_read(Register::F_STAT, dnr_last),
                        reg_read(Register::HIB_CFG, hib_word),
                    ] + ez_load_writes(config).take(3));
                }
                return Err(e);
            },
        }
        proof {
            done = done + seq![reg_write(Register::DESIGN_CAP, config.design_cap_mah)];
            assert(self.log() =~= base + done);
        }
        match self.write_register(Register::I_CHG_TERM, config.i_chg_term_ma) {
            Ok(_) => {},
            Err(e) => {
                proof {
                    lemma_extends_append(base, done);
                    assert(self.log() =~= base + poll_steps(Register::F_STAT, dnr_polls) + seq![
                        reg_read(Register::F_STAT, dnr_last),
                        reg_read(Register::HIB_CFG, hib_word),
                    ] + ez_load_writes(config).take(4));
                }
                return Err(e);
            },
        }
        proof {
            done = done + seq![reg_write(Register::I_CHG_TERM, config.i_chg_term_ma)];
            assert(self.log() =~= base + done);
        }
        match self.write_register(Register::V_EMPTY, config.v_empty_mv.to_word()) {
            Ok(_) => {},
            Err(e) => {
                proof {
                    lemma_extends_append(base, done);
                    assert(self.log() =~= base + poll_steps(Register::F_STAT, dnr_polls) + seq![
                        reg_read(Register::F_STAT, dnr_last),
                        reg_read(Register::HIB_CFG, hib_word),
                    ] + ez_load_writes(config).take(5));
                }
                return Err(e);
            },
        }
        proof {
            done = done + seq![reg_write(Register::V_EMPTY, config.v_empty_mv.word())];
            assert(self.log() =~= base + done);
        }
        // Select the charge-voltage model and command the reload.
        let model_word: u16 = if config.charge_voltage_mv > 4275 {
            0x8400
        } else {
            0x8000
        };
        match self.write_register(Register::MODEL_CFG, model_word) {
            Ok(_) => {},
            Err(e) => {
                proof {
                    lemma_extends_append(base, done);
                    assert(self.log() =~= base + poll_steps(Register::F_STAT, dnr_polls) + seq![
                        reg_read(Register::F_STAT, dnr_last),
                        reg_read(Register::HIB_CFG, hib_word),
                    ] + ez_load_writes(config).take(6));
                }
                return Err(e);
            },
        }
        proof {
            done = done + seq![reg_write(Register::MODEL_CFG, model_cfg_word(config))];
            assert(self.log() =~= base + done);
        }
        // Wait for the device to clear the refresh bit: the model reload
        // has then finished.
        let (refresh_last, refresh_ghost) = match self.poll_register_until_clear(
            delay,
            Register::MODEL_CFG,
            ModelCfg::REFRESH,
        ) {
            Ok(p) => p,
            Err(e) => {
                proof {
                    lemma_extends_append(base, done);
                    lemma_extends_trans(base, base + done, self.log());
                    assert(base + done =~= base + ez_load_until_model_write(
                        config,
                        dnr_polls,
                        dnr_last,
                        hib_word,
                    ));
                }
                return Err(e);
            },
        };
        let ghost refresh_polls = refresh_ghost@;
        proof {
            done = done + poll_steps(Register::MODEL_CFG, refresh_polls) + seq![
                reg_read(Register::MODEL_CFG, refresh_last),
            ];
            assert(self.log() =~= base + done);
        }
        // Restore the saved hibernate configuration as an opaque bit
        // pattern.
        match self.write_register(Register::HIB_CFG, hib_cfg.to_word()) {
            Ok(_) => {},
            Err(e) => {
                proof {
                    lemma_extends_append(base, done);
                    assert(self.log() =~= base + ez_load_until_model_write(
                        config,
                        dnr_polls,
                        dnr_last,
                        hib_word,
                    ) + poll_steps(Register::MODEL_CFG, refresh_polls) + seq![
                        reg_read(Register::MODEL_CFG, refresh_last),
                    ]);
                }
                return Err(e);
            },
        }
        proof {
            done = done + seq![reg_write(Register::HIB_CFG, hib_word)];
            assert(self.log() =~= base + done);
            assert(done =~= ez_load_model_trace_parts(
                config,
                dnr_polls,
                dnr_last,
                hib_word,
                refresh_polls,
                refresh_last,
            ));
        }
        Ok(Ghost((dnr_polls, dnr_last, hib_word, refresh_polls, refresh_last)))
    }

    /// The closing phase, run unconditionally: read the Status word, write
    /// it back with only the POR bit cleared, verify the write, and read
    /// the diagnostic charge status snapshot.
    #[verifier::spinoff_prover]
    fn ez_clear_por<D: Delay>(&mut self, delay: &mut D) -> (r: Result<
        (BatteryChargeStatus, Ghost<(u16, Seq<u16>)>),
        Error<T::Error>,
    >)
        ensures
            final(self).resolver() == old(self).resolver(),
            final(self).spec_poll_budget() == old(self).spec_poll_budget(),
            r matches Ok(p) ==> verify_reads_ok(p.1@.0 & 0xFFFD, p.1@.1) && final(self).log()
                == old(self).log() + ez_clear_por_trace_parts(p.1@.0, p.1@.1, p.0),
            r is Err ==> log_extends(old(self).log(), final(self).log()),
            r matches Err(e) ==> match e {
                Error::I2c(_) => ez_clear_por_aborted_from(old(self).log(), final(self).log()),
                Error::WriteNotVerified { register: rg, write: w, read: rd } => rg
                    == Register::STATUS && exists|s1: u16|
                    #![trigger reg_read(Register::STATUS, s1)]
                    {
                        &&& w == (s1 & 0xFFFD)
                        &&& verify_failed_from(
                            Register::STATUS,
                            w,
                            rd,
                            old(self).log() + seq![
                                reg_read(Register::STATUS, s1),
                                reg_write(Register::STATUS, w),
                            ],
                            final(self).log(),
                        )
                    },
                Error::PollBudgetExhausted { .. } => false,
            },
    {
        let ghost base = self.log();
        let ghost mut done: Seq<BusTxn> = Seq::empty();
        proof {
            assert(self.log() =~= base + done);
        }
        let status1 = match self.read_register_as_u16(Register::STATUS) {
            Ok(w) => w,
            Err(e) => {
                proof {
                    lemma_extends_append(base, done);
                    assert(base + done =~= base);
                }
                return Err(e);
            },
        };
        proof {
            done = done + seq![reg_read(Register::STATUS, status1)];
            assert(self.log() =~= base + done);
        }
        // Clear only the POR bit, leaving every other flag as read.
        let masked = Status::word_with_por_cleared(status1);
        match self.write_register(Register::STATUS, masked) {
            Ok(_) => {},
            Err(e) => {
                proof {
                    lemma_extends_append(base, done);
                    assert(self.log() =~= base + seq![reg_read(Register::STATUS, status1)]);
                }
                return Err(e);
            },
        }
        proof {
            done = done + seq![reg_write(Register::STATUS, status1 & 0xFFFD)];
            assert(self.log() =~= base + done);
        }
        // Commit the cleared POR bit with the verified-write path: callers
        // treat a clear POR bit as proof that initialization completed, so
        // a silently dropped write must not pass for success.
        let verify_ghost = match self.write_and_verify_register_inner(
            Register::STATUS,
            masked,
            delay,
        ) {
            Ok(g) => g,
            Err(e) => {
                proof {
                    lemma_extends_append(base, done);
                    lemma_extends_trans(base, base + done, self.log());
                    assert(base + done =~= base + seq![
                        reg_read(Register::STATUS, status1),
                        reg_write(Register::STATUS, (status1 & 0xFFFD)),
                    ]);
                }
                return Err(e);
            },
        };
        proof {
            done = done + verify_attempts_trace(
                Register::STATUS,
                status1 & 0xFFFD,
                verify_ghost@,
            );
            assert(self.log() =~= base + done);
        }
        // Read back a diagnostic snapshot of the battery's charge status.
        let snapshot = match self.battery_charge_status() {
            Ok(s) => s,
            Err(e) => {
                proof {
                    lemma_extends_append(base, done);
                    lemma_extends_trans(base, base + done, self.log());
                    assert(base + done =~= base + seq![
                        reg_read(Register::STATUS, status1),
                        reg_write(Register::STATUS, (status1 & 0xFFFD)),
                    ] + verify_attempts_trace(
                        Register::STATUS,
                        status1 & 0xFFFD,
                        verify_ghost@,
                    ));
                }
                return Err(e);
            },
        };
        proof {
            done = done + seq![
                reg_read(OutputRegister::REP_CAP, snapshot.rep_cap),
                reg_read(OutputRegister::REP_SOC, snapshot.rep_soc),
                reg_read(OutputRegister::TTE, snapshot.tte),
            ];
            assert(self.log() =~= base + done);
            assert(done =~= ez_clear_por_trace_parts(status1, verify_ghost@, snapshot));
        }
        Ok((snapshot, Ghost((status1, verify_ghost@))))
    }

    /// Runs the EZ-Config initialization procedure: detect a power-on
    /// reset, and if one happened, wait for the gauge's outputs to become
    /// valid, leave hibernate mode, load the battery parameters and the
    /// charge-voltage model, wait for the model reload, and restore the
    /// hibernate configuration; in every case, clear the POR bit with a
    /// verified write and read a diagnostic charge status snapshot.
    ///
    /// On success the ghost log extends by exactly the trace
    /// `ez_config_trace` describes: with POR clear on the first read, one
    /// status read and no configuration write precede the POR clear; with
    /// POR set, the full write sequence runs in its specified order. On
    /// error the procedure aborts at once, with nothing after the failing
    /// transaction and no rollback: the contract pins the completed
    /// prefix, and in particular the hibernate configuration is not
    /// restored on abort. The polls run under the driver's poll budget,
    /// by default the largest expressible; `Error::PollBudgetExhausted`
    /// can only follow a caller's `set_poll_budget`.
    #[verifier::spinoff_prover]
    pub fn ez_config<D: Delay>(&mut self, delay: &mut D, config: EzConfig) -> (r: Result<
        (),
        Error<T::Error>,
    >)
        ensures
            final(self).resolver() == old(self).resolver(),
            final(self).spec_poll_budget() == old(self).spec_poll_budget(),
            r is Ok ==> exists|run: EzConfigRun|
                ez_run_ok(config, run) && final(self).log() == old(self).log()
                    + #[trigger] ez_config_trace(config, run),
            r is Err ==> log_extends(old(self).log(), final(self).log()),
            r matches Err(e) ==> match e {
                Error::I2c(_) => {
                    ||| final(self).log() == old(self).log()  // the initial Status read failed
                    ||| exists|s0: u16|
                        #![trigger reg_read(Register::STATUS, s0)]
                        (s0 & Status::POR) != 0 && ez_load_aborted_from(
                            config,
                            old(self).log() + seq![reg_read(Register::STATUS, s0)],
                            final(self).log(),
                        )
                    ||| exists|s0: u16, mid: Seq<BusTxn>|
                        #![trigger ez_body_prefix(config, s0, old(self).log(), mid)]
                        ez_body_prefix(config, s0, old(self).log(), mid)
                            && ez_clear_por_aborted_from(mid, final(self).log())
                },
                Error::WriteNotVerified { register: rg, write: w, read: rd } => rg
                    == Register::STATUS && exists|s0: u16, mid: Seq<BusTxn>, s1: u16|
                    #![trigger ez_body_prefix(config, s0, old(self).log(), mid), reg_read(Register::STATUS, s1)]
                    {
                        &&& ez_body_prefix(config, s0, old(self).log(), mid)
                        &&& w == (s1 & 0xFFFD)
                        &&& verify_failed_from(
                            Register::STATUS,
                            w,
                            rd,
                            mid + seq![
                                reg_read(Register::STATUS, s1),
                                reg_write(Register::STATUS, w),
                            ],
                            final(self).log(),
                        )
                    },
                Error::PollBudgetExhausted { register: rg } => {
                    ||| (rg == Register::F_STAT && exists|s0: u16|
                        #![trigger reg_read(Register::STATUS, s0)]
                        (s0 & Status::POR) != 0 && poll_budget_from(
                            Register::F_STAT,
                            FStat::DNR,
                            old(self).spec_poll_budget() as int,
                            old(self).log() + seq![reg_read(Register::STATUS, s0)],
                            final(self).log(),
                        ))
                    ||| (rg == Register::MODEL_CFG && exists|s0: u16, dp: Seq<u16>, dl: u16, h: u16|
                        #![trigger reg_read(Register::STATUS, s0), ez_load_until_model_write(config, dp, dl, h)]
                        {
                            &&& (s0 & Status::POR) != 0
                            &&& (forall|i: int|
                                0 <= i < dp.len() ==> (#[trigger] dp[i] & FStat::DNR) != 0)
                            &&& (dl & FStat::DNR) == 0
                            &&& poll_budget_from(
                                Register::MODEL_CFG,
                                ModelCfg::REFRESH,
                                old(self).spec_poll_budget() as int,
                                old(self).log() + seq![reg_read(Register::STATUS, s0)]
                                    + ez_load_until_model_write(config, dp, dl, h),
                                final(self).log(),
                            )
                        })
                },
            },
    {
        let ghost base = self.log();
        // Check for a power-on reset.
        let status0 = match self.read_register_as_u16(Register::STATUS) {
            Ok(w) => w,
            Err(e) => {
                proof {
                    assert(log_extends(base, self.log())) by {
                        assert(self.log().take(base.len() as int) =~= base);
                    }
                }
                return Err(e);
            },
        };
        let ghost head = seq![reg_read(Register::STATUS, status0)];
        let ghost mut load: Seq<BusTxn> = Seq::empty();
        let ghost mut dnr_polls: Seq<u16> = Seq::empty();
        let ghost mut dnr_last: u16 = 0;
        let ghost mut hib_word: u16 = 0;
        let ghost mut refresh_polls: Seq<u16> = Seq::empty();
        let ghost mut refresh_last: u16 = 0;
        if status0 & Status::POR != 0 {
            // POR detected: the gauge holds the default model, so load the
            // caller's battery parameters.
            let g = match self.ez_load_model(delay, config) {
                Ok(g) => g,
                Err(e) => {
                    proof {
                        lemma_extends_append(base, head);
                        assert(base.push(reg_read(Register::STATUS, status0)) =~= base + head);
                        lemma_extends_trans(base, base + head, self.log());
                    }
                    return Err(e);
                },
            };
            proof {
                dnr_polls = g@.0;
                dnr_last = g@.1;
                hib_word = g@.2;
                refresh_polls = g@.3;
                refresh_last = g@.4;
                load = ez_load_model_trace_parts(
                    config,
                    dnr_polls,
                    dnr_last,
                    hib_word,
                    refresh_polls,
                    refresh_last,
                );
                assert(self.log() =~= base + (head + load));
            }
        } else {
            proof {
                assert(self.log() =~= base + (head + load));
                assert((0u16 & FStat::DNR) == 0 && (0u16 & ModelCfg::REFRESH) == 0)
                    by (bit_vector);
            }
        }
        let (snapshot, verify_ghost) = match self.ez_clear_por(delay) {
            Ok(p) => p,
            Err(e) => {
                proof {
                    lemma_extends_append(base, head + load);
                    lemma_extends_trans(base, base + (head + load), self.log());
                    let mid = base + (head + load);
                    if (status0 & Status::POR) != 0 {
                        assert(mid =~= base + seq![reg_read(Register::STATUS, status0)]
                            + ez_load_model_trace_parts(
                            config,
                            dnr_polls,
                            dnr_last,
                            hib_word,
                            refresh_polls,
                            refresh_last,
                        ));
                    } else {
                        assert(mid =~= base + seq![reg_read(Register::STATUS, status0)]);
                    }
                    assert(ez_body_prefix(config, status0, base, mid));
                }
                return Err(e);
            },
        };
        proof {
            let run = EzConfigRun {
                status0,
                dnr_polls,
                dnr_last,
                hib_cfg: hib_word,
                refresh_polls,
                refresh_last,
                status1: verify_ghost@.0,
                verify_reads: verify_ghost@.1,
                charge_status: snapshot,
            };
            assert(ez_run_ok(config, run));
            assert(self.log() =~= base + ez_config_trace(config, run));
        }
        Ok(())
    }
}

} // verus!

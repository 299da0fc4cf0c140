//! Low-power timer (LPTIM)
//!
//! A 16-bit up counter clocked by an independent kernel clock (PCLK, LSI or
//! LSE). The autoreload match flag is set when the counter reaches the
//! autoreload value; in continuous mode the counter restarts, in single mode
//! it stops.
//!
//! The PY32F072 LPTIM is a reduced STM32L0-style LPTIM: no compare register,
//! no CMPM/CMPOK flags, no external trigger inputs.

use vstd::prelude::*;
use crate::bus::{Op, Reg, Peripheral, Irq, reg_after};

verus! {

/// `ISR.ARRM` / `ICR.ARRMCF` / `IER.ARRMIE`: autoreload match.
pub const ARRM: u32 = 0x0002;
/// `ISR.ARROK` / `ICR.ARROKCF`: autoreload register update OK.
pub const ARROK: u32 = 0x0010;
/// `CFGR.PRESC`: clock prescaler, bits 11:9.
pub const CFGR_PRESC: u32 = 0x0e00;
/// `CFGR.PRELOAD`: registers update at the end of the current period.
pub const CFGR_PRELOAD: u32 = 0x0040_0000;
/// `CR.ENABLE`: LPTIM enable.
pub const CR_ENABLE: u32 = 0x0001;
/// `CR.SNGSTRT`: start in single mode.
pub const CR_SNGSTRT: u32 = 0x0002;
/// `CR.CNTSTRT`: start in continuous mode.
pub const CR_CNTSTRT: u32 = 0x0004;
/// `CR.COUNTRST`: counter reset, cleared by hardware when done.
pub const CR_COUNTRST: u32 = 0x0008;

/// LPTIM clock prescaler
#[derive(Clone, Copy, Debug, PartialEq, Eq, Structural)]
pub enum Prescaler {
    DIV1,
    DIV2,
    DIV4,
    DIV8,
    DIV16,
    DIV32,
    DIV64,
    DIV128,
}

impl Prescaler {
    /// The `CFGR.PRESC` code of this prescaler.
    pub open spec fn presc_code(self) -> u32 {
        match self {
            Prescaler::DIV1 => 0,
            Prescaler::DIV2 => 1,
            Prescaler::DIV4 => 2,
            Prescaler::DIV8 => 3,
            Prescaler::DIV16 => 4,
            Prescaler::DIV32 => 5,
            Prescaler::DIV64 => 6,
            Prescaler::DIV128 => 7,
        }
    }

    /// The number the kernel clock is divided by.
    pub open spec fn divisor(self) -> u32 {
        match self {
            Prescaler::DIV1 => 1,
            Prescaler::DIV2 => 2,
            Prescaler::DIV4 => 4,
            Prescaler::DIV8 => 8,
            Prescaler::DIV16 => 16,
            Prescaler::DIV32 => 32,
            Prescaler::DIV64 => 64,
            Prescaler::DIV128 => 128,
        }
    }

    fn presc(self) -> (r: u32)
        ensures
            r == self.presc_code(),
            r < 8,
            1u32 << r == self.divisor(),
    {
        assert(1u32 << 0u32 == 1 && 1u32 << 1u32 == 2 && 1u32 << 2u32 == 4 && 1u32 << 3u32 == 8 && 1u32
            << 4u32 == 16 && 1u32 << 5u32 == 32 && 1u32 << 6u32 == 64 && 1u32 << 7u32 == 128) by (bit_vector);
        match self {
            Prescaler::DIV1 => 0,
            Prescaler::DIV2 => 1,
            Prescaler::DIV4 => 2,
            Prescaler::DIV8 => 3,
            Prescaler::DIV16 => 4,
            Prescaler::DIV32 => 5,
            Prescaler::DIV64 => 6,
            Prescaler::DIV128 => 7,
        }
    }
}

/// LPTIM operating mode
#[derive(Clone, Copy, Debug, Eq, PartialEq, Structural)]
pub enum Mode {
    /// Single: the counter stops at the autoreload value.
    Single,
    /// Continuous: the counter restarts at the autoreload value.
    Continuous,
}

impl Mode {
    /// The `CR` bit that starts the counter in this mode.
    pub open spec fn start_bit(self) -> u32 {
        match self {
            Mode::Single => CR_SNGSTRT,
            Mode::Continuous => CR_CNTSTRT,
        }
    }
}

/// LPTIM configuration
#[derive(Clone, Copy, Debug)]
pub struct Config {
    /// Clock prescaler
    pub prescaler: Prescaler,
    /// Operating mode
    pub mode: Mode,
    /// Registers update mode: when set, CFGR/ARR updates are applied at the
    /// next counter overflow instead of immediately.
    pub preload: bool,
    /// Enable the autoreload match interrupt (needed for [`Lptim::wait_match`]).
    pub interrupt: bool,
}

impl Default for Config {
    fn default() -> (r: Self)
        ensures
            r.prescaler == Prescaler::DIV1,
            r.mode == Mode::Continuous,
            !r.preload,
            r.interrupt,
    {
        Config { prescaler: Prescaler::DIV1, mode: Mode::Continuous, preload: false, interrupt: true }
    }
}

/// The `CFGR` value for a configuration.
pub open spec fn cfgr_value(config: Config) -> u32 {
    (config.prescaler.presc_code() << 9u32) | (if config.preload { CFGR_PRELOAD } else { 0 })
}

/// The program of [`Lptim::new`].
pub open spec fn new_ops(config: Config) -> Seq<Op> {
    seq![
        Op::EnableClock { periph: Peripheral::Lptim1 },
        Op::Write { reg: Reg::LptimCfgr, value: cfgr_value(config) },
        Op::Write { reg: Reg::LptimIer, value: if config.interrupt { ARRM } else { 0 } },
        Op::Modify { reg: Reg::LptimCr, mask: CR_ENABLE, value: CR_ENABLE },
        Op::EnableIrq { irq: Irq::Tim6Lptim1Dac },
    ]
}

/// The program of [`Lptim::set_autoreload`].
pub open spec fn autoreload_ops(arr: u16) -> Seq<Op> {
    seq![
        Op::Write { reg: Reg::LptimArr, value: arr as u32 },
        Op::WaitSet { reg: Reg::LptimIsr, mask: ARROK },
        Op::Write { reg: Reg::LptimIcr, value: ARROK },
    ]
}

/// The program of [`Lptim::start`] in mode `mode`.
pub open spec fn start_ops(mode: Mode) -> Seq<Op> {
    seq![
        Op::Modify {
            reg: Reg::LptimCr,
            mask: CR_ENABLE | mode.start_bit(),
            value: CR_ENABLE | mode.start_bit(),
        },
    ]
}

/// LPTIM driver
pub struct Lptim {
    mode: Mode,
}

impl Lptim {
    /// The operating mode the driver was made with.
    pub closed spec fn mode(&self) -> Mode {
        self.mode
    }

    /// Create a new LPTIM driver.
    ///
    /// `kernel_clock_hz` is the frequency of the LPTIM kernel clock, which
    /// must be running: enable LSI or LSE and select it as the LPTIM clock,
    /// or use PCLK. `CFGR` and `IER` are written while the LPTIM is still
    /// disabled, as the hardware requires.
    pub fn new(config: Config, kernel_clock_hz: u32, ops: &mut Vec<Op>) -> (r: Self)
        requires
            kernel_clock_hz != 0,
        ensures
            r.mode() == config.mode,
            final(ops)@ == old(ops)@ + new_ops(config),
    {
        ops.push(Op::EnableClock { periph: Peripheral::Lptim1 });
        let presc = config.prescaler.presc();
        let preload = if config.preload { CFGR_PRELOAD } else { 0 };
        ops.push(Op::Write { reg: Reg::LptimCfgr, value: (presc << 9u32) | preload });
        ops.push(Op::Write { reg: Reg::LptimIer, value: if config.interrupt { ARRM } else { 0 } });
        ops.push(Op::Modify { reg: Reg::LptimCr, mask: CR_ENABLE, value: CR_ENABLE });
        ops.push(Op::EnableIrq { irq: Irq::Tim6Lptim1Dac });
        assert(final(ops)@ =~= old(ops)@ + new_ops(config));
        Lptim { mode: config.mode }
    }

    /// Set the autoreload value.
    ///
    /// The LPTIM must be enabled (it is by default). The write completes when
    /// the ARROK flag is set, which is then cleared.
    pub fn set_autoreload(&mut self, ops: &mut Vec<Op>, arr: u16)
        ensures
            final(self).mode() == old(self).mode(),
            final(ops)@ == old(ops)@ + autoreload_ops(arr),
    {
        ops.push(Op::Write { reg: Reg::LptimArr, value: arr as u32 });
        ops.push(Op::WaitSet { reg: Reg::LptimIsr, mask: ARROK });
        ops.push(Op::Write { reg: Reg::LptimIcr, value: ARROK });
        assert(final(ops)@ =~= old(ops)@ + autoreload_ops(arr));
    }

    /// The autoreload value, from the value `arr` read from `ARR`.
    pub fn autoreload(&self, arr: u32) -> (r: u16)
        ensures
            r == arr & 0xffff,
    {
        assert(arr & 0xffff <= 0xffff) by (bit_vector);
        (arr & 0xffff) as u16
    }

    /// The counter value, from two consecutive reads `first` and `second` of
    /// `CNT`. Two consecutive reads must return the same value for the
    /// result to be valid, so this returns `None` when they differ and the
    /// caller reads again.
    pub fn counter(&self, first: u32, second: u32) -> (r: Option<u16>)
        ensures
            r == (if first & 0xffff == second & 0xffff {
                Some((first & 0xffff) as u16)
            } else {
                None
            }),
    {
        let a = first & 0xffff;
        let b = second & 0xffff;
        assert(first & 0xffff <= 0xffff) by (bit_vector);
        if a == b {
            Some(a as u16)
        } else {
            None
        }
    }

    /// Start the LPTIM.
    ///
    /// In continuous mode the counter counts up to the autoreload value and
    /// restarts; in single mode it stops at the autoreload value.
    pub fn start(&mut self, ops: &mut Vec<Op>)
        ensures
            final(self).mode() == old(self).mode(),
            final(ops)@ == old(ops)@ + start_ops(old(self).mode()),
    {
        let start = match self.mode {
            Mode::Single => CR_SNGSTRT,
            Mode::Continuous => CR_CNTSTRT,
        };
        ops.push(Op::Modify { reg: Reg::LptimCr, mask: CR_ENABLE | start, value: CR_ENABLE | start });
        assert(final(ops)@ =~= old(ops)@ + start_ops(old(self).mode()));
    }

    /// Stop the LPTIM.
    pub fn stop(&mut self, ops: &mut Vec<Op>)
        ensures
            final(self).mode() == old(self).mode(),
            final(ops)@ == old(ops)@.push(Op::Modify { reg: Reg::LptimCr, mask: CR_ENABLE, value: 0 }),
    {
        ops.push(Op::Modify { reg: Reg::LptimCr, mask: CR_ENABLE, value: 0 });
    }

    /// Reset the counter and wait until the hardware has done it. The LPTIM
    /// must be enabled.
    pub fn reset_counter(&mut self, ops: &mut Vec<Op>)
        ensures
            final(self).mode() == old(self).mode(),
            final(ops)@ == old(ops)@ + seq![
                Op::Modify { reg: Reg::LptimCr, mask: CR_COUNTRST, value: CR_COUNTRST },
                Op::WaitClear { reg: Reg::LptimCr, mask: CR_COUNTRST },
            ],
    {
        ops.push(Op::Modify { reg: Reg::LptimCr, mask: CR_COUNTRST, value: CR_COUNTRST });
        ops.push(Op::WaitClear { reg: Reg::LptimCr, mask: CR_COUNTRST });
        assert(final(ops)@ =~= old(ops)@ + seq![
            Op::Modify { reg: Reg::LptimCr, mask: CR_COUNTRST, value: CR_COUNTRST },
            Op::WaitClear { reg: Reg::LptimCr, mask: CR_COUNTRST },
        ]);
    }

    /// Whether the autoreload match flag is set in the value `isr` read from
    /// `ISR`.
    pub fn match_flag(&self, isr: u32) -> (r: bool)
        ensures
            r == (isr & ARRM != 0),
    {
        isr & ARRM != 0
    }

    /// Clear the autoreload match flag.
    pub fn clear_match_flag(&mut self, ops: &mut Vec<Op>)
        ensures
            final(self).mode() == old(self).mode(),
            final(ops)@ == old(ops)@.push(Op::Write { reg: Reg::LptimIcr, value: ARRM }),
    {
        ops.push(Op::Write { reg: Reg::LptimIcr, value: ARRM });
    }

    /// One poll of the wait for the next autoreload match, given the value
    /// `isr` read from `ISR`: when the match flag is set, clear it and return
    /// `true`; otherwise return `false` and wait for the interrupt. The
    /// autoreload match interrupt must be enabled (see [`Config::interrupt`]).
    pub fn wait_match(&mut self, ops: &mut Vec<Op>, isr: u32) -> (ready: bool)
        ensures
            final(self).mode() == old(self).mode(),
            ready == (isr & ARRM != 0),
            final(ops)@ == if ready {
                old(ops)@.push(Op::Write { reg: Reg::LptimIcr, value: ARRM })
            } else {
                old(ops)@
            },
    {
        if isr & ARRM != 0 {
            ops.push(Op::Write { reg: Reg::LptimIcr, value: ARRM });
            true
        } else {
            false
        }
    }
}

/// Law: reading `ARR` after [`Lptim::set_autoreload`] gives back the value
/// written, whatever `ARR` held before.
pub proof fn lemma_autoreload_round_trip(arr: u16, before: u32)
    ensures
        reg_after(Reg::LptimArr, autoreload_ops(arr), before) & 0xffff == arr,
{
    reveal_with_fuel(reg_after, 4);
    let ops = autoreload_ops(arr);
    assert(ops.drop_last() =~= ops.take(2));
    assert(ops.take(2).drop_last() =~= ops.take(1));
    assert(ops.take(1).drop_last() =~= Seq::<Op>::empty());
    assert((arr as u32) & 0xffff == arr) by (bit_vector);
}

/// Law: the `CFGR.PRESC` code of a prescaler is the base-2 logarithm of the
/// divisor it names, so the `CFGR` value of a configuration divides the
/// kernel clock by the configured divisor.
pub proof fn lemma_presc_is_log2_divisor(config: Config)
    ensures
        config.prescaler.presc_code() < 8,
        1u32 << config.prescaler.presc_code() == config.prescaler.divisor(),
        1u32 << ((cfgr_value(config) & CFGR_PRESC) >> 9u32) == config.prescaler.divisor(),
{
    let c = config.prescaler.presc_code();
    assert(1u32 << 0u32 == 1) by (bit_vector);
    assert(1u32 << 1u32 == 2) by (bit_vector);
    assert(1u32 << 2u32 == 4) by (bit_vector);
    assert(1u32 << 3u32 == 8) by (bit_vector);
    assert(1u32 << 4u32 == 16) by (bit_vector);
    assert(1u32 << 5u32 == 32) by (bit_vector);
    assert(1u32 << 6u32 == 64) by (bit_vector);
    assert(1u32 << 7u32 == 128) by (bit_vector);
    lemma_cfgr_fields(config);
}

/// Law: the `CFGR` value of a configuration holds its prescaler code in
/// `CFGR.PRESC` and its preload choice in `CFGR.PRELOAD`, and nothing else.
pub proof fn lemma_cfgr_fields(config: Config)
    ensures
        (cfgr_value(config) & CFGR_PRESC) >> 9u32 == config.prescaler.presc_code(),
        (cfgr_value(config) & CFGR_PRELOAD != 0) == config.preload,
        cfgr_value(config) & !(CFGR_PRESC | CFGR_PRELOAD) == 0,
{
    let c = config.prescaler.presc_code();
    let p = config.preload;
    assert(c < 8);
    assert(c < 8 ==> ((((c << 9u32) | (if p { 0x0040_0000u32 } else { 0u32 })) & 0x0e00u32) >> 9u32 == c
        && ((((c << 9u32) | (if p { 0x0040_0000u32 } else { 0u32 })) & 0x0040_0000u32) != 0) == p
        && ((c << 9u32) | (if p { 0x0040_0000u32 } else { 0u32 })) & !(0x0e00u32 | 0x0040_0000u32) == 0))
        by (bit_vector);
}

/// Law: [`Lptim::start`] leaves the LPTIM enabled with the start bit of its
/// mode set: `SNGSTRT` in single mode, `CNTSTRT` in continuous mode.
pub proof fn lemma_start_sets_mode_bit(mode: Mode, before: u32)
    ensures
        ({
            let y = reg_after(Reg::LptimCr, start_ops(mode), before);
            &&& y & CR_ENABLE == CR_ENABLE
            &&& y & mode.start_bit() == mode.start_bit()
        }),
{
    reveal_with_fuel(reg_after, 2);
    assert(start_ops(mode).drop_last() =~= Seq::<Op>::empty());
    let b = mode.start_bit();
    assert((b == 2u32 || b == 4u32) ==> ((before & !(1u32 | b)) | ((1u32 | b) & (1u32 | b))) & 1u32 == 1u32
        && ((before & !(1u32 | b)) | ((1u32 | b) & (1u32 | b))) & b == b) by (bit_vector);
}

/// Law: [`Lptim::new`] writes `CFGR` and `IER` before it enables the LPTIM,
/// as the hardware only accepts them while the LPTIM is disabled.
pub proof fn lemma_configure_before_enable(config: Config)
    ensures
        ({
            let ops = new_ops(config);
            &&& ops[1] matches Op::Write { reg: Reg::LptimCfgr, .. }
            &&& ops[2] matches Op::Write { reg: Reg::LptimIer, .. }
            &&& ops[3] == Op::Modify { reg: Reg::LptimCr, mask: CR_ENABLE, value: CR_ENABLE }
            &&& forall|k: int| 0 <= k < 3 ==> !(#[trigger] ops[k] matches Op::Modify { reg: Reg::LptimCr, .. })
        }),
{
    let ops = new_ops(config);
    assert(ops[0] == Op::EnableClock { periph: Peripheral::Lptim1 });
}

/// The value `ISR` reads after a program, when it read `init` before and the
/// hardware raised no flag but those a wait waited for: a wait until bits
/// read as one leaves them set, and a one written to a bit of `ICR` clears
/// the matching flag of `ISR`.
pub open spec fn isr_after(ops: Seq<Op>, init: u32) -> u32
    decreases ops.len(),
{
    if ops.len() == 0 {
        init
    } else {
        let prev = isr_after(ops.drop_last(), init);
        match ops.last() {
            Op::WaitSet { reg: Reg::LptimIsr, mask } => prev | mask,
            Op::Write { reg: Reg::LptimIcr, value } => prev & !value,
            _ => prev,
        }
    }
}

/// Law: [`Lptim::set_autoreload`] leaves `ISR.ARROK` clear (it waits for
/// the flag, then clears it) and the match flag as it was;
/// [`Lptim::clear_match_flag`] leaves `ISR.ARRM` clear.
pub proof fn lemma_flags_cleared(arr: u16, isr: u32)
    ensures
        isr_after(autoreload_ops(arr), isr) & ARROK == 0,
        isr_after(autoreload_ops(arr), isr) & ARRM == isr & ARRM,
        isr_after(seq![Op::Write { reg: Reg::LptimIcr, value: ARRM }], isr) & ARRM == 0,
{
    reveal_with_fuel(isr_after, 4);
    let ops = autoreload_ops(arr);
    assert(ops.drop_last() =~= ops.take(2));
    assert(ops.take(2).drop_last() =~= ops.take(1));
    assert(ops.take(1).drop_last() =~= Seq::<Op>::empty());
    assert(seq![Op::Write { reg: Reg::LptimIcr, value: ARRM }].drop_last() =~= Seq::<Op>::empty());
    assert(((isr | 0x10u32) & !0x10u32) & 0x10u32 == 0) by (bit_vector);
    assert(((isr | 0x10u32) & !0x10u32) & 0x2u32 == isr & 0x2u32) by (bit_vector);
    assert((isr & !0x2u32) & 0x2u32 == 0) by (bit_vector);
}

} // verus!

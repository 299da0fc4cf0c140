//! Real-time clock (RTC)
//!
//! The PY32F072 RTC is a classic F1-style peripheral: a 20-bit programmable
//! prescaler (PRL), a 32-bit up counter (CNT) and a 32-bit alarm register
//! (ALR), each split into a high and a low 16-bit register. The alarm fires
//! when the counter reaches the alarm value. A second flag is set once per
//! prescaler cycle and an overflow flag when the counter wraps.
//!
//! The RTC core is powered from the backup domain: writing RTC registers
//! requires disabling the backup domain write protection (PWR_CR1.DBP) first,
//! which this driver does. Writes to PRL, CNT and ALR must be done in
//! configuration mode (CNF sequence); every RTC register write must wait
//! until the previous one completed (RTOFF).

use vstd::prelude::*;
use crate::bus::{
    Op, Reg, Peripheral, Irq, modify_word, reg_after, writes_reg, lemma_reg_after_concat,
    lemma_reg_after_untouched,
};

verus! {

/// `CRH.SECIE`: second interrupt enable.
pub const CRH_SECIE: u32 = 0x01;
/// `CRH.ALRIE`: alarm interrupt enable.
pub const CRH_ALRIE: u32 = 0x02;
/// `CRH.OWIE`: overflow interrupt enable.
pub const CRH_OWIE: u32 = 0x04;
/// `CRL.SECF`: second flag.
pub const CRL_SECF: u32 = 0x01;
/// `CRL.ALRF`: alarm flag.
pub const CRL_ALRF: u32 = 0x02;
/// `CRL.OWF`: overflow flag.
pub const CRL_OWF: u32 = 0x04;
/// `CRL.RSF`: registers synchronized flag.
pub const CRL_RSF: u32 = 0x08;
/// `CRL.CNF`: configuration mode.
pub const CRL_CNF: u32 = 0x10;
/// `CRL.RTOFF`: last write operation completed.
pub const CRL_RTOFF: u32 = 0x20;
/// `PWR_CR1.DBP`: backup domain write protection disable.
pub const PWR_CR1_DBP: u32 = 0x0100;
/// `RCC_BDCR.LSEON`: LSE oscillator enable.
pub const BDCR_LSEON: u32 = 0x0001;
/// `RCC_BDCR.LSERDY`: LSE oscillator ready.
pub const BDCR_LSERDY: u32 = 0x0002;
/// `RCC_BDCR.RTCSEL`: RTC clock source, bits 9:8.
pub const BDCR_RTCSEL: u32 = 0x0300;
/// `RCC_BDCR.RTCEN`: RTC clock enable.
pub const BDCR_RTCEN: u32 = 0x8000;
/// `RCC_BDCR.BDRST`: backup domain software reset.
pub const BDCR_BDRST: u32 = 0x0001_0000;
/// `RCC_CR.HSEON`: HSE oscillator enable.
pub const RCC_CR_HSEON: u32 = 0x0001_0000;
/// `RCC_CR.HSERDY`: HSE oscillator ready.
pub const RCC_CR_HSERDY: u32 = 0x0002_0000;
/// `RCC_CSR.LSION`: LSI oscillator enable.
pub const CSR_LSION: u32 = 0x0001;
/// `RCC_CSR.LSIRDY`: LSI oscillator ready.
pub const CSR_LSIRDY: u32 = 0x0002;

/// RTC clock source
#[derive(Clone, Copy, Debug, PartialEq, Eq, Structural)]
pub enum RtcClockSource {
    /// Low-speed external oscillator (LSE)
    Lse,
    /// Low-speed internal oscillator (LSI), 32.768 kHz
    Lsi,
    /// High-speed external oscillator divided by 128 (HSE/128)
    HseDiv128,
}

impl RtcClockSource {
    /// The `RCC_BDCR.RTCSEL` code of this source.
    pub open spec fn rtcsel_code(self) -> u32 {
        match self {
            RtcClockSource::Lse => 1,
            RtcClockSource::Lsi => 2,
            RtcClockSource::HseDiv128 => 3,
        }
    }

    fn to_vals(self) -> (r: u32)
        ensures
            r == self.rtcsel_code(),
    {
        match self {
            RtcClockSource::Lse => 1,
            RtcClockSource::Lsi => 2,
            RtcClockSource::HseDiv128 => 3,
        }
    }
}

/// RTC interrupt source
#[derive(Clone, Copy, Debug, PartialEq, Eq, Structural)]
pub enum RtcInterrupt {
    /// Overflow: the counter wrapped past 0xFFFF_FFFF
    Overflow,
    /// Alarm: the counter reached the alarm value
    Alarm,
    /// Second: the prescaler completed one cycle
    Second,
}

impl RtcInterrupt {
    /// The enable bit of this interrupt in `CRH`.
    pub open spec fn enable_bit(self) -> u32 {
        match self {
            RtcInterrupt::Overflow => CRH_OWIE,
            RtcInterrupt::Alarm => CRH_ALRIE,
            RtcInterrupt::Second => CRH_SECIE,
        }
    }

    /// The flag of this interrupt in `CRL`.
    pub open spec fn flag_bit(self) -> u32 {
        match self {
            RtcInterrupt::Overflow => CRL_OWF,
            RtcInterrupt::Alarm => CRL_ALRF,
            RtcInterrupt::Second => CRL_SECF,
        }
    }

    fn enable_mask(self) -> (r: u32)
        ensures
            r == self.enable_bit(),
            r == self.flag_bit(),
    {
        match self {
            RtcInterrupt::Overflow => CRH_OWIE,
            RtcInterrupt::Alarm => CRH_ALRIE,
            RtcInterrupt::Second => CRH_SECIE,
        }
    }

    fn flag_mask(self) -> (r: u32)
        ensures
            r == self.flag_bit(),
    {
        match self {
            RtcInterrupt::Overflow => CRL_OWF,
            RtcInterrupt::Alarm => CRL_ALRF,
            RtcInterrupt::Second => CRL_SECF,
        }
    }
}

/// Law: the `CRH` enable bit of each interrupt sits at the position of its
/// `CRL` flag, each is a single bit, and the three interrupts use three
/// different bits; so enabling interrupt `i` enables the interrupt whose flag
/// [`Rtc::interrupt_flag`] reads for `i` and which `wait_second` /
/// `wait_alarm` clear.
pub proof fn lemma_enable_bit_matches_flag(i: RtcInterrupt, j: RtcInterrupt)
    ensures
        i.enable_bit() == i.flag_bit(),
        i.enable_bit() == 1 || i.enable_bit() == 2 || i.enable_bit() == 4,
        i != j ==> i.enable_bit() & j.enable_bit() == 0,
        i.flag_bit() == CRL_SECF <==> i == RtcInterrupt::Second,
        i.flag_bit() == CRL_ALRF <==> i == RtcInterrupt::Alarm,
        i.flag_bit() == CRL_OWF <==> i == RtcInterrupt::Overflow,
{
    assert(1u32 & 2u32 == 0 && 1u32 & 4u32 == 0 && 2u32 & 4u32 == 0 && 2u32 & 1u32 == 0 && 4u32 & 1u32
        == 0 && 4u32 & 2u32 == 0) by (bit_vector);
}

/// RTC configuration
#[derive(Clone, Copy, Debug)]
pub struct RtcConfig {
    /// RTC clock source
    pub clock_source: RtcClockSource,
    /// Prescaler value (PRL). The RTC clock is divided by `prescaler + 1`.
    /// Must be in `1..=0xF_FFFF`. 32767 yields a 1 Hz counter tick from a
    /// 32.768 kHz clock.
    pub prescaler: u32,
}

impl Default for RtcConfig {
    fn default() -> (r: Self)
        ensures
            r.clock_source == RtcClockSource::Lsi,
            r.prescaler == 32767,
    {
        RtcConfig { clock_source: RtcClockSource::Lsi, prescaler: 32767 }
    }
}

/// Split a 20-bit prescaler into the PRLH (bits 19:16) and PRLL (bits 15:0)
/// halves.
pub fn split_prescaler(prl: u32) -> (r: (u8, u16))
    ensures
        r.0 as u32 == (prl >> 16u32) & 0xff,
        r.1 as u32 == prl & 0xffff,
{
    assert((prl >> 16u32) as u8 as u32 == (prl >> 16u32) & 0xff) by (bit_vector);
    assert(prl as u16 as u32 == prl & 0xffff) by (bit_vector);
    ((prl >> 16u32) as u8, prl as u16)
}

/// Law: a prescaler in range comes back whole from its two halves, and the
/// high half fits the 4-bit PRLH register.
pub proof fn lemma_prescaler_halves(prl: u32)
    requires
        prl <= 0xF_FFFF,
    ensures
        ((prl >> 16u32) & 0xff) < 16,
        (((prl >> 16u32) & 0xff) << 16u32) | (prl & 0xffff) == prl,
{
    assert(((prl >> 16u32) & 0xff) < 16) by (bit_vector)
        requires
            prl <= 0xF_FFFF,
    ;
    assert((((prl >> 16u32) & 0xff) << 16u32) | (prl & 0xffff) == prl) by (bit_vector)
        requires
            prl <= 0xF_FFFF,
    ;
}

/// The 32-bit value whose low half is the 16-bit field of `low` and whose
/// high half is the 16-bit field of `high`.
pub open spec fn join_halves(low: u32, high: u32) -> u32 {
    ((high & 0xffff) << 16u32) | (low & 0xffff)
}

/// Whether an operation writes one of the registers that may only be written
/// in configuration mode.
pub open spec fn writes_config_register(op: Op) -> bool {
    match op {
        Op::Write { reg, .. } | Op::Modify { reg, .. } => {
            ||| reg == Reg::RtcPrlh
            ||| reg == Reg::RtcPrll
            ||| reg == Reg::RtcCnth
            ||| reg == Reg::RtcCntl
            ||| reg == Reg::RtcAlrh
            ||| reg == Reg::RtcAlrl
        },
        _ => false,
    }
}

/// The configuration-mode sequence around the two writes `first` and
/// `second`: wait for RTOFF, set CNF, write, clear CNF, wait for RTOFF.
pub open spec fn cnf_ops(first: Op, second: Op) -> Seq<Op> {
    seq![
        Op::WaitSet { reg: Reg::RtcCrl, mask: CRL_RTOFF },
        Op::Modify { reg: Reg::RtcCrl, mask: CRL_CNF, value: CRL_CNF },
        first,
        second,
        Op::Modify { reg: Reg::RtcCrl, mask: CRL_CNF, value: 0 },
        Op::WaitSet { reg: Reg::RtcCrl, mask: CRL_RTOFF },
    ]
}

/// The program that writes `value` to the register pair `high`/`low`.
pub open spec fn pair_ops(high: Reg, low: Reg, value: u32) -> Seq<Op> {
    cnf_ops(
        Op::Write { reg: high, value: value >> 16u32 },
        Op::Write { reg: low, value: value & 0xffff },
    )
}

/// The program that starts the clock source `source` of the RTC.
pub open spec fn clock_source_ops(source: RtcClockSource) -> Seq<Op> {
    match source {
        RtcClockSource::Lsi => seq![
            Op::Modify { reg: Reg::RccCsr, mask: CSR_LSION, value: CSR_LSION },
            Op::WaitSet { reg: Reg::RccCsr, mask: CSR_LSIRDY },
        ],
        RtcClockSource::Lse => seq![
            Op::Modify { reg: Reg::RccBdcr, mask: BDCR_LSEON, value: BDCR_LSEON },
            Op::WaitSet { reg: Reg::RccBdcr, mask: BDCR_LSERDY },
        ],
        RtcClockSource::HseDiv128 => seq![
            Op::Modify { reg: Reg::RccCr, mask: RCC_CR_HSEON, value: RCC_CR_HSEON },
            Op::WaitSet { reg: Reg::RccCr, mask: RCC_CR_HSERDY },
        ],
    }
}

/// The program of [`Rtc::new`] up to programming the prescaler.
pub open spec fn setup_ops(source: RtcClockSource) -> Seq<Op> {
    seq![
        Op::EnableClock { periph: Peripheral::Pwr },
        Op::Modify { reg: Reg::PwrCr1, mask: PWR_CR1_DBP, value: PWR_CR1_DBP },
        Op::Modify { reg: Reg::RccBdcr, mask: BDCR_BDRST, value: BDCR_BDRST },
        Op::Modify { reg: Reg::RccBdcr, mask: BDCR_BDRST, value: 0 },
    ] + clock_source_ops(source) + seq![
        Op::Modify {
            reg: Reg::RccBdcr,
            mask: BDCR_RTCSEL | BDCR_RTCEN,
            value: (source.rtcsel_code() << 8u32) | BDCR_RTCEN,
        },
        Op::WaitSet { reg: Reg::RtcCrl, mask: CRL_RSF },
    ]
}

/// The whole program of [`Rtc::new`].
pub open spec fn new_ops(config: RtcConfig) -> Seq<Op> {
    setup_ops(config.clock_source) + cnf_ops(
        Op::Write { reg: Reg::RtcPrlh, value: (config.prescaler >> 16u32) & 0xff },
        Op::Write { reg: Reg::RtcPrll, value: config.prescaler & 0xffff },
    ) + seq![Op::EnableIrq { irq: Irq::Rtc }]
}

/// The program that sets or clears the enable bit of interrupt `i`.
pub open spec fn interrupt_enable_ops(i: RtcInterrupt, enable: bool) -> Seq<Op> {
    seq![
        Op::WaitSet { reg: Reg::RtcCrl, mask: CRL_RTOFF },
        Op::Modify {
            reg: Reg::RtcCrh,
            mask: i.enable_bit(),
            value: if enable { i.enable_bit() } else { 0 },
        },
    ]
}

/// The program that clears the flag of interrupt `i` (the flags are cleared
/// by writing zero).
pub open spec fn clear_flag_ops(i: RtcInterrupt) -> Seq<Op> {
    seq![
        Op::WaitSet { reg: Reg::RtcCrl, mask: CRL_RTOFF },
        Op::Modify { reg: Reg::RtcCrl, mask: i.flag_bit(), value: 0 },
    ]
}


/// Whether every store of `ops` into PRL, CNT or ALR happens in configuration
/// mode, that is, while `CRL.CNF` is set, whatever `CRL` held before.
pub open spec fn config_writes_in_config_mode(ops: Seq<Op>) -> bool {
    forall|k: int, x: u32|
        #![trigger reg_after(Reg::RtcCrl, ops.take(k), x)]
        0 <= k < ops.len() && writes_config_register(ops[k]) ==> reg_after(Reg::RtcCrl, ops.take(k), x)
            & CRL_CNF == CRL_CNF
}

/// Whether `ops` leaves configuration mode, whatever `CRL` held before.
pub open spec fn leaves_config_mode(ops: Seq<Op>) -> bool {
    forall|x: u32| #[trigger] reg_after(Reg::RtcCrl, ops, x) & CRL_CNF == 0
}

proof fn lemma_cnf_bits(x: u32)
    ensures
        modify_word(x, CRL_CNF, CRL_CNF) & CRL_CNF == CRL_CNF,
        modify_word(x, CRL_CNF, 0) & CRL_CNF == 0,
{
    assert(((x & !0x10u32) | (0x10u32 & 0x10u32)) & 0x10u32 == 0x10u32) by (bit_vector);
    assert(((x & !0x10u32) | (0u32 & 0x10u32)) & 0x10u32 == 0u32) by (bit_vector);
}

/// The configuration-mode sequence around two stores, with anything before
/// and after it that neither stores into `CRL` nor into PRL, CNT or ALR,
/// stores into PRL, CNT and ALR only in configuration mode and leaves it.
proof fn lemma_cnf_program(prefix: Seq<Op>, first: Op, second: Op, suffix: Seq<Op>)
    requires
        !writes_reg(first, Reg::RtcCrl),
        !writes_reg(second, Reg::RtcCrl),
        forall|k: int| 0 <= k < prefix.len() ==> !writes_config_register(#[trigger] prefix[k]),
        forall|k: int| 0 <= k < suffix.len() ==> !writes_config_register(#[trigger] suffix[k]),
        forall|k: int| 0 <= k < suffix.len() ==> !writes_reg(#[trigger] suffix[k], Reg::RtcCrl),
    ensures
        config_writes_in_config_mode(prefix + cnf_ops(first, second) + suffix),
        leaves_config_mode(prefix + cnf_ops(first, second) + suffix),
{
    reveal_with_fuel(reg_after, 3);
    let c = cnf_ops(first, second);
    let ops = prefix + c + suffix;
    let p = prefix.len() as int;
    assert(c.take(2).drop_last().drop_last() =~= Seq::<Op>::empty());
    assert(c.take(2).drop_last() =~= seq![c[0]]);
    assert(c.take(3).drop_last() =~= c.take(2));
    assert forall|k: int, x: u32|
        #![trigger reg_after(Reg::RtcCrl, ops.take(k), x)]
        0 <= k < ops.len() && writes_config_register(ops[k]) implies reg_after(
        Reg::RtcCrl,
        ops.take(k),
        x,
    ) & CRL_CNF == CRL_CNF by {
        if k < p {
            assert(ops[k] == prefix[k]);
        } else if k >= p + 6 {
            assert(ops[k] == suffix[k - p - 6]);
        } else {
            let j = k - p;
            assert(ops[k] == c[j]);
            assert(j == 2 || j == 3);
            assert(ops.take(k) =~= prefix + c.take(j));
            lemma_reg_after_concat(Reg::RtcCrl, prefix, c.take(j), x);
            let y = reg_after(Reg::RtcCrl, prefix, x);
            lemma_cnf_bits(y);
            assert(reg_after(Reg::RtcCrl, c.take(2), y) == modify_word(y, CRL_CNF, CRL_CNF));
        }
    }
    assert forall|x: u32| #[trigger] reg_after(Reg::RtcCrl, ops, x) & CRL_CNF == 0 by {
        lemma_reg_after_concat(Reg::RtcCrl, prefix + c, suffix, x);
        lemma_reg_after_concat(Reg::RtcCrl, prefix, c, x);
        let y = reg_after(Reg::RtcCrl, prefix, x);
        reveal_with_fuel(reg_after, 7);
        assert(c.drop_last() =~= c.take(5));
        assert(c.take(5).drop_last() =~= c.take(4));
        assert(c.take(4).drop_last() =~= c.take(3));
        let z = reg_after(Reg::RtcCrl, c, y);
        lemma_cnf_bits(reg_after(Reg::RtcCrl, c.take(4), y));
        assert(z & CRL_CNF == 0);
        lemma_reg_after_untouched(Reg::RtcCrl, suffix, z);
    }
}

/// Law: every program the RTC driver emits that stores into the prescaler,
/// counter or alarm registers does so only in configuration mode, and leaves
/// configuration mode at its end.
pub proof fn lemma_config_mode_protocol(config: RtcConfig, value: u32)
    ensures
        config_writes_in_config_mode(new_ops(config)),
        leaves_config_mode(new_ops(config)),
        config_writes_in_config_mode(pair_ops(Reg::RtcCnth, Reg::RtcCntl, value)),
        leaves_config_mode(pair_ops(Reg::RtcCnth, Reg::RtcCntl, value)),
        config_writes_in_config_mode(pair_ops(Reg::RtcAlrh, Reg::RtcAlrl, value)),
        leaves_config_mode(pair_ops(Reg::RtcAlrh, Reg::RtcAlrl, value)),
{
    let e = Seq::<Op>::empty();
    let setup = setup_ops(config.clock_source);
    let irq = seq![Op::EnableIrq { irq: Irq::Rtc }];
    assert forall|k: int| 0 <= k < setup.len() implies !writes_config_register(#[trigger] setup[k]) by {
        let cs = clock_source_ops(config.clock_source);
        if 4 <= k < 4 + cs.len() {
            assert(setup[k] == cs[k - 4]);
        }
    }
    assert forall|k: int| 0 <= k < irq.len() implies !writes_config_register(#[trigger] irq[k]) && !writes_reg(irq[k], Reg::RtcCrl) by {
        assert(irq[k] == Op::EnableIrq { irq: Irq::Rtc });
    }
    let prl = cnf_ops(
        Op::Write { reg: Reg::RtcPrlh, value: (config.prescaler >> 16u32) & 0xff },
        Op::Write { reg: Reg::RtcPrll, value: config.prescaler & 0xffff },
    );
    lemma_cnf_program(
        setup,
        Op::Write { reg: Reg::RtcPrlh, value: (config.prescaler >> 16u32) & 0xff },
        Op::Write { reg: Reg::RtcPrll, value: config.prescaler & 0xffff },
        irq,
    );
    lemma_cnf_program(
        e,
        Op::Write { reg: Reg::RtcCnth, value: value >> 16u32 },
        Op::Write { reg: Reg::RtcCntl, value: value & 0xffff },
        e,
    );
    assert(e + pair_ops(Reg::RtcCnth, Reg::RtcCntl, value) + e =~= pair_ops(Reg::RtcCnth, Reg::RtcCntl, value));
    lemma_cnf_program(
        e,
        Op::Write { reg: Reg::RtcAlrh, value: value >> 16u32 },
        Op::Write { reg: Reg::RtcAlrl, value: value & 0xffff },
        e,
    );
    assert(e + pair_ops(Reg::RtcAlrh, Reg::RtcAlrl, value) + e =~= pair_ops(Reg::RtcAlrh, Reg::RtcAlrl, value));
}

/// Law: after `set_counter(c)` (or `set_alarm(c)`) the two halves hold
/// values that [`Rtc::now`] (or [`Rtc::alarm`]) reads back as `c`, whatever
/// the registers held before.
pub proof fn lemma_pair_round_trip(high: Reg, low: Reg, value: u32, high_before: u32, low_before: u32)
    requires
        high == Reg::RtcCnth && low == Reg::RtcCntl || high == Reg::RtcAlrh && low == Reg::RtcAlrl,
    ensures
        join_halves(
            reg_after(low, pair_ops(high, low, value), low_before),
            reg_after(high, pair_ops(high, low, value), high_before),
        ) == value,
{
    reveal_with_fuel(reg_after, 7);
    let ops = pair_ops(high, low, value);
    assert(ops.drop_last() =~= ops.take(5));
    assert(ops.take(5).drop_last() =~= ops.take(4));
    assert(ops.take(4).drop_last() =~= ops.take(3));
    assert(ops.take(3).drop_last() =~= ops.take(2));
    assert(ops.take(2).drop_last() =~= ops.take(1));
    assert(ops.take(1).drop_last() =~= Seq::<Op>::empty());
    assert(((((value >> 16u32) & 0xffff) << 16u32) | ((value & 0xffff) & 0xffff)) == value) by (bit_vector);
}

/// Law: enabling (disabling) an interrupt sets (clears) its enable bit in
/// `CRH` and leaves the other bits of `CRH` unchanged.
pub proof fn lemma_interrupt_enable(i: RtcInterrupt, enable: bool, x: u32)
    ensures
        ({
            let y = reg_after(Reg::RtcCrh, interrupt_enable_ops(i, enable), x);
            &&& y & i.enable_bit() == (if enable { i.enable_bit() } else { 0 })
            &&& y & !i.enable_bit() == x & !i.enable_bit()
        }),
{
    reveal_with_fuel(reg_after, 3);
    let ops = interrupt_enable_ops(i, enable);
    assert(ops.drop_last().drop_last() =~= Seq::<Op>::empty());
    let b = i.enable_bit();
    let v: u32 = if enable { b } else { 0 };
    assert(b == 1 || b == 2 || b == 4);
    assert((b == 1u32 || b == 2u32 || b == 4u32) && (v == b || v == 0u32) ==> (((x & !b) | (v & b)) & b == v
        && ((x & !b) | (v & b)) & !b == x & !b)) by (bit_vector);
}


/// Whether an operation stores into the backup domain: an RTC register or
/// `RCC_BDCR`.
pub open spec fn writes_backup_domain(op: Op) -> bool {
    match op {
        Op::Write { reg, .. } | Op::Modify { reg, .. } => {
            ||| reg == Reg::RccBdcr
            ||| reg == Reg::RtcCrh
            ||| reg == Reg::RtcCrl
            ||| reg == Reg::RtcPrlh
            ||| reg == Reg::RtcPrll
            ||| reg == Reg::RtcCnth
            ||| reg == Reg::RtcCntl
            ||| reg == Reg::RtcAlrh
            ||| reg == Reg::RtcAlrl
        },
        _ => false,
    }
}

/// Law: [`Rtc::new`] disables the backup domain write protection before
/// its first store into the backup domain.
pub proof fn lemma_unprotect_before_backup_writes(config: RtcConfig)
    ensures
        ({
            let ops = new_ops(config);
            &&& ops[1] == Op::Modify { reg: Reg::PwrCr1, mask: PWR_CR1_DBP, value: PWR_CR1_DBP }
            &&& !writes_backup_domain(ops[0])
        }),
{
}


/// Law: [`Rtc::new`] turns the selected clock source on and waits until it
/// is ready before it selects it as the RTC clock and enables the RTC.
pub proof fn lemma_source_ready_before_select(source: RtcClockSource)
    ensures
        ({
            let ops = setup_ops(source);
            &&& ops[4] == match source {
                RtcClockSource::Lsi => Op::Modify { reg: Reg::RccCsr, mask: CSR_LSION, value: CSR_LSION },
                RtcClockSource::Lse => Op::Modify { reg: Reg::RccBdcr, mask: BDCR_LSEON, value: BDCR_LSEON },
                RtcClockSource::HseDiv128 => Op::Modify {
                    reg: Reg::RccCr,
                    mask: RCC_CR_HSEON,
                    value: RCC_CR_HSEON,
                },
            }
            &&& ops[5] == match source {
                RtcClockSource::Lsi => Op::WaitSet { reg: Reg::RccCsr, mask: CSR_LSIRDY },
                RtcClockSource::Lse => Op::WaitSet { reg: Reg::RccBdcr, mask: BDCR_LSERDY },
                RtcClockSource::HseDiv128 => Op::WaitSet { reg: Reg::RccCr, mask: RCC_CR_HSERDY },
            }
            &&& ops[6] == Op::Modify {
                reg: Reg::RccBdcr,
                mask: BDCR_RTCSEL | BDCR_RTCEN,
                value: (source.rtcsel_code() << 8u32) | BDCR_RTCEN,
            }
        }),
{
    let ops = setup_ops(source);
    assert(clock_source_ops(source).len() == 2);
}

/// RTC driver
pub struct Rtc {
    _private: (),
}

impl Rtc {
    /// Create a new RTC driver.
    ///
    /// Enables the PWR clock and disables the backup domain write protection
    /// (PWR_CR1.DBP), resets the backup domain, enables the selected clock
    /// source (LSI, LSE or HSE) and waits until it is ready, selects it and
    /// enables the RTC, programs the prescaler and enables the RTC interrupt
    /// line. The prescaler must be in `1..=0xF_FFFF`.
    pub fn new(config: RtcConfig, ops: &mut Vec<Op>) -> (r: Self)
        requires
            1 <= config.prescaler <= 0xF_FFFF,
        ensures
            final(ops)@ == old(ops)@ + new_ops(config),
    {
        ops.push(Op::EnableClock { periph: Peripheral::Pwr });
        ops.push(Op::Modify { reg: Reg::PwrCr1, mask: PWR_CR1_DBP, value: PWR_CR1_DBP });
        ops.push(Op::Modify { reg: Reg::RccBdcr, mask: BDCR_BDRST, value: BDCR_BDRST });
        ops.push(Op::Modify { reg: Reg::RccBdcr, mask: BDCR_BDRST, value: 0 });
        let ghost before_source = ops@;
        match config.clock_source {
            RtcClockSource::Lsi => {
                ops.push(Op::Modify { reg: Reg::RccCsr, mask: CSR_LSION, value: CSR_LSION });
                ops.push(Op::WaitSet { reg: Reg::RccCsr, mask: CSR_LSIRDY });
            },
            RtcClockSource::Lse => {
                ops.push(Op::Modify { reg: Reg::RccBdcr, mask: BDCR_LSEON, value: BDCR_LSEON });
                ops.push(Op::WaitSet { reg: Reg::RccBdcr, mask: BDCR_LSERDY });
            },
            RtcClockSource::HseDiv128 => {
                ops.push(Op::Modify { reg: Reg::RccCr, mask: RCC_CR_HSEON, value: RCC_CR_HSEON });
                ops.push(Op::WaitSet { reg: Reg::RccCr, mask: RCC_CR_HSERDY });
            },
        }
        assert(ops@ =~= before_source + clock_source_ops(config.clock_source));
        let sel = config.clock_source.to_vals();
        ops.push(
            Op::Modify {
                reg: Reg::RccBdcr,
                mask: BDCR_RTCSEL | BDCR_RTCEN,
                value: (sel << 8u32) | BDCR_RTCEN,
            },
        );
        ops.push(Op::WaitSet { reg: Reg::RtcCrl, mask: CRL_RSF });
        assert(ops@ =~= old(ops)@ + setup_ops(config.clock_source));
        let (prlh, prll) = split_prescaler(config.prescaler);
        Self::write_cnf(
            ops,
            Op::Write { reg: Reg::RtcPrlh, value: prlh as u32 },
            Op::Write { reg: Reg::RtcPrll, value: prll as u32 },
        );
        ops.push(Op::EnableIrq { irq: Irq::Rtc });
        assert(ops@ =~= old(ops)@ + new_ops(config));
        Rtc { _private: () }
    }

    /// The current counter value, from the values `cntl` and `cnth` read
    /// from `CNTL` and then `CNTH` (reading `CNTL` latches `CNTH`, so the low
    /// register must be read first).
    pub fn now(&self, cntl: u32, cnth: u32) -> (r: u32)
        ensures
            r == join_halves(cntl, cnth),
    {
        let lo = cntl & 0xffff;
        let hi = cnth & 0xffff;
        (hi << 16u32) | lo
    }

    /// Set the counter value.
    pub fn set_counter(&mut self, ops: &mut Vec<Op>, counter: u32)
        ensures
            *final(self) == *old(self),
            final(ops)@ == old(ops)@ + pair_ops(Reg::RtcCnth, Reg::RtcCntl, counter),
    {
        Self::write_cnf(
            ops,
            Op::Write { reg: Reg::RtcCnth, value: counter >> 16u32 },
            Op::Write { reg: Reg::RtcCntl, value: counter & 0xffff },
        );
    }

    /// The alarm value, from the values `alrl` and `alrh` read from `ALRL`
    /// and `ALRH`.
    pub fn alarm(&self, alrl: u32, alrh: u32) -> (r: u32)
        ensures
            r == join_halves(alrl, alrh),
    {
        let lo = alrl & 0xffff;
        let hi = alrh & 0xffff;
        (hi << 16u32) | lo
    }

    /// Set the alarm value. The alarm flag is set when the counter reaches it.
    pub fn set_alarm(&mut self, ops: &mut Vec<Op>, alarm: u32)
        ensures
            *final(self) == *old(self),
            final(ops)@ == old(ops)@ + pair_ops(Reg::RtcAlrh, Reg::RtcAlrl, alarm),
    {
        Self::write_cnf(
            ops,
            Op::Write { reg: Reg::RtcAlrh, value: alarm >> 16u32 },
            Op::Write { reg: Reg::RtcAlrl, value: alarm & 0xffff },
        );
    }

    /// Enable an RTC interrupt.
    pub fn enable_interrupt(&mut self, ops: &mut Vec<Op>, i: RtcInterrupt)
        ensures
            *final(self) == *old(self),
            final(ops)@ == old(ops)@ + interrupt_enable_ops(i, true),
    {
        self.set_interrupt(ops, i, true);
    }

    /// Disable an RTC interrupt.
    pub fn disable_interrupt(&mut self, ops: &mut Vec<Op>, i: RtcInterrupt)
        ensures
            *final(self) == *old(self),
            final(ops)@ == old(ops)@ + interrupt_enable_ops(i, false),
    {
        self.set_interrupt(ops, i, false);
    }

    fn set_interrupt(&mut self, ops: &mut Vec<Op>, i: RtcInterrupt, enable: bool)
        ensures
            *final(self) == *old(self),
            final(ops)@ == old(ops)@ + interrupt_enable_ops(i, enable),
    {
        // A CRH write only requires RTOFF=1.
        ops.push(Op::WaitSet { reg: Reg::RtcCrl, mask: CRL_RTOFF });
        let bit = i.enable_mask();
        ops.push(Op::Modify { reg: Reg::RtcCrh, mask: bit, value: if enable { bit } else { 0 } });
        assert(final(ops)@ =~= old(ops)@ + interrupt_enable_ops(i, enable));
    }

    /// Whether the flag of interrupt `i` is set in the value `crl` read from
    /// `CRL`.
    pub fn interrupt_flag(&self, crl: u32, i: RtcInterrupt) -> (r: bool)
        ensures
            r == (crl & i.flag_bit() != 0),
    {
        crl & i.flag_mask() != 0
    }

    /// Clear an RTC interrupt flag. Writing 0 to a flag clears it.
    pub fn clear_interrupt_flag(&mut self, ops: &mut Vec<Op>, i: RtcInterrupt)
        ensures
            *final(self) == *old(self),
            final(ops)@ == old(ops)@ + clear_flag_ops(i),
    {
        ops.push(Op::WaitSet { reg: Reg::RtcCrl, mask: CRL_RTOFF });
        let flag = i.flag_mask();
        ops.push(Op::Modify { reg: Reg::RtcCrl, mask: flag, value: 0 });
        assert(final(ops)@ =~= old(ops)@ + clear_flag_ops(i));
    }

    /// One poll of the wait for the next second tick, given the value `crl`
    /// read from `CRL`: when the second flag is set, clear it (waiting for
    /// RTOFF first, as every RTC register write must) and return `true`;
    /// otherwise return `false` and wait for the RTC interrupt. The `Second`
    /// interrupt must be enabled first.
    pub fn wait_second(&mut self, ops: &mut Vec<Op>, crl: u32) -> (ready: bool)
        ensures
            *final(self) == *old(self),
            ready == (crl & CRL_SECF != 0),
            final(ops)@ == if ready {
                old(ops)@ + clear_flag_ops(RtcInterrupt::Second)
            } else {
                old(ops)@
            },
    {
        self.poll_flag(ops, crl, RtcInterrupt::Second)
    }

    /// One poll of the wait for the alarm, given the value `crl` read from
    /// `CRL`: when the alarm flag is set, clear it (waiting for RTOFF first)
    /// and return `true`. The `Alarm` interrupt must be enabled first.
    pub fn wait_alarm(&mut self, ops: &mut Vec<Op>, crl: u32) -> (ready: bool)
        ensures
            *final(self) == *old(self),
            ready == (crl & CRL_ALRF != 0),
            final(ops)@ == if ready {
                old(ops)@ + clear_flag_ops(RtcInterrupt::Alarm)
            } else {
                old(ops)@
            },
    {
        self.poll_flag(ops, crl, RtcInterrupt::Alarm)
    }

    fn poll_flag(&mut self, ops: &mut Vec<Op>, crl: u32, i: RtcInterrupt) -> (ready: bool)
        ensures
            *final(self) == *old(self),
            ready == (crl & i.flag_bit() != 0),
            final(ops)@ == if ready {
                old(ops)@ + clear_flag_ops(i)
            } else {
                old(ops)@
            },
    {
        if crl & i.flag_mask() != 0 {
            self.clear_interrupt_flag(ops, i);
            true
        } else {
            false
        }
    }

    /// Run the writes `first` and `second` in configuration mode (CNF
    /// sequence): wait for RTOFF, set CNF, write, clear CNF, wait for RTOFF.
    fn write_cnf(ops: &mut Vec<Op>, first: Op, second: Op)
        ensures
            final(ops)@ == old(ops)@ + cnf_ops(first, second),
    {
        ops.push(Op::WaitSet { reg: Reg::RtcCrl, mask: CRL_RTOFF });
        ops.push(Op::Modify { reg: Reg::RtcCrl, mask: CRL_CNF, value: CRL_CNF });
        ops.push(first);
        ops.push(second);
        ops.push(Op::Modify { reg: Reg::RtcCrl, mask: CRL_CNF, value: 0 });
        ops.push(Op::WaitSet { reg: Reg::RtcCrl, mask: CRL_RTOFF });
        assert(final(ops)@ =~= old(ops)@ + cnf_ops(first, second));
    }
}

} // verus!

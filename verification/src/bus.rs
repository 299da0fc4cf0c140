//! Register programs.
//!
//! The drivers of this crate do not touch memory-mapped registers themselves.
//! Each driver operation appends the register accesses it needs, in order, to
//! a program (a `Vec<Op>`); the code that owns the hardware runs the program
//! against the real registers. What the drivers decide (which registers,
//! which bits, in which order, when to wait) is therefore plain data, and the
//! contracts of the drivers state it exactly.

use vstd::prelude::*;
use crate::gpio::PinId;

verus! {

/// A peripheral whose bus clock the reset and clock controller gates.
#[derive(Clone, Copy, Debug, PartialEq, Eq, Structural)]
pub enum Peripheral {
    Dac,
    Lptim1,
    Opa,
    Ctc,
    Pwr,
}

/// An interrupt line of the interrupt controller.
#[derive(Clone, Copy, Debug, PartialEq, Eq, Structural)]
pub enum Irq {
    /// The line shared by TIM6, LPTIM1 and the DAC.
    Tim6Lptim1Dac,
    Rtc,
}

/// A memory-mapped register. Registers that exist once per DAC channel carry
/// the channel index (0 or 1).
#[derive(Clone, Copy, Debug, PartialEq, Eq, Hash, Structural)]
pub enum Reg {
    DacCr,
    DacSwtrigr,
    DacDhr12r(usize),
    DacDhr12l(usize),
    DacDhr8r(usize),
    DacDhr12rd,
    DacDhr12ld,
    DacDhr8rd,
    DacDor(usize),
    DacSr,
    LptimIsr,
    LptimIcr,
    LptimIer,
    LptimCfgr,
    LptimCr,
    LptimArr,
    LptimCnt,
    OpaCr0,
    OpaCr1,
    CtcCtl0,
    CtcCtl1,
    CtcSr,
    CtcIntc,
    RtcCrh,
    RtcCrl,
    RtcPrlh,
    RtcPrll,
    RtcCnth,
    RtcCntl,
    RtcAlrh,
    RtcAlrl,
    PwrCr1,
    RccCr,
    RccBdcr,
    RccCsr,
}

/// One step of a register program.
#[derive(Clone, Copy, Debug, PartialEq, Eq, Structural)]
pub enum Op {
    /// Store `value` into the whole register.
    Write { reg: Reg, value: u32 },
    /// Read the register, replace the bits selected by `mask` with those of
    /// `value`, and store the result (see [`modify_word`]).
    Modify { reg: Reg, mask: u32, value: u32 },
    /// Poll the register until every bit of `mask` reads as one.
    WaitSet { reg: Reg, mask: u32 },
    /// Poll the register until every bit of `mask` reads as zero.
    WaitClear { reg: Reg, mask: u32 },
    /// Put a GPIO pin in analog mode.
    SetAnalog { pin: PinId },
    /// Enable the bus clock of a peripheral and pulse its reset.
    EnableClock { periph: Peripheral },
    /// Disable the bus clock of a peripheral.
    DisableClock { periph: Peripheral },
    /// Clear the pending state of an interrupt line, then enable it.
    EnableIrq { irq: Irq },
    /// Start of a section that must run with interrupts masked.
    EnterCritical,
    /// End of a section started by `EnterCritical`.
    ExitCritical,
    /// Start a memory-to-peripheral DMA transfer of `len` words of
    /// `memory_word_bytes` bytes each into register `target`, with a
    /// peripheral word size of four bytes and no half-transfer interrupt.
    StartDma {
        target: Reg,
        memory_word_bytes: u8,
        len: u16,
        circular: bool,
        complete_transfer_irq: bool,
    },
}

/// The value a read-modify-write with `mask` and `value` stores into a
/// register that held `old`.
pub open spec fn modify_word(old: u32, mask: u32, value: u32) -> u32 {
    (old & !mask) | (value & mask)
}

/// The value a register holds after a program ran, when it held `init`
/// before and nothing but the program wrote to it.
pub open spec fn reg_after(reg: Reg, ops: Seq<Op>, init: u32) -> u32
    decreases ops.len(),
{
    if ops.len() == 0 {
        init
    } else {
        let prev = reg_after(reg, ops.drop_last(), init);
        match ops.last() {
            Op::Write { reg: r, value } => if r == reg { value } else { prev },
            Op::Modify { reg: r, mask, value } => if r == reg {
                modify_word(prev, mask, value)
            } else {
                prev
            },
            _ => prev,
        }
    }
}

/// Running two programs one after the other leaves a register as running
/// the second one on what the first one left.
pub proof fn lemma_reg_after_concat(reg: Reg, a: Seq<Op>, b: Seq<Op>, init: u32)
    ensures
        reg_after(reg, a + b, init) == reg_after(reg, b, reg_after(reg, a, init)),
    decreases b.len(),
{
    if b.len() == 0 {
        assert(a + b =~= a);
    } else {
        assert((a + b).drop_last() =~= a + b.drop_last());
        assert((a + b).last() == b.last());
        lemma_reg_after_concat(reg, a, b.drop_last(), init);
    }
}

/// Whether an operation stores into register `reg`.
pub open spec fn writes_reg(op: Op, reg: Reg) -> bool {
    match op {
        Op::Write { reg: r, .. } => r == reg,
        Op::Modify { reg: r, .. } => r == reg,
        _ => false,
    }
}

/// A program that never stores into `reg` leaves it as it was.
pub proof fn lemma_reg_after_untouched(reg: Reg, ops: Seq<Op>, init: u32)
    requires
        forall|k: int| 0 <= k < ops.len() ==> !writes_reg(#[trigger] ops[k], reg),
    ensures
        reg_after(reg, ops, init) == init,
    decreases ops.len(),
{
    if ops.len() > 0 {
        let prefix = ops.drop_last();
        assert forall|k: int| 0 <= k < prefix.len() implies !writes_reg(#[trigger] prefix[k], reg) by {
            assert(prefix[k] == ops[k]);
        }
        lemma_reg_after_untouched(reg, prefix, init);
        assert(!writes_reg(ops[ops.len() - 1], reg));
    }
}

} // verus!

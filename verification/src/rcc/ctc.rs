//! CTC support for the PLL48M output.
//!
//! The clock trim controller counts PLL48M cycles between two reference
//! pulses and, with automatic trimming on, adjusts the PLL48M trimming step
//! (`CTL0.TRIMVALUE`) so that the count matches the reload value.

use vstd::prelude::*;
use crate::bus::{Op, Reg, Peripheral};

verus! {

/// PLL48M speed, in hertz.
pub const PLL48M_FREQ: u32 = 48_000_000;

/// `CTL0.CNTEN`: trim counter enable.
pub const CTL0_CNTEN: u32 = 0x0020;
/// `CTL0.AUTOTRIM`: automatic trimming enable.
pub const CTL0_AUTOTRIM: u32 = 0x0040;
/// `CTL0.TRIMVALUE`: trimming step, bits 14:8 (64 after reset).
pub const CTL0_TRIMVALUE: u32 = 0x7f00;
/// `CTL1.REFSEL` code of the USB start-of-frame reference, bits 29:28.
pub const CTL1_REFSEL_USBSOF: u32 = 2;
/// `CTL1.REFPSC` code of an undivided reference, bits 26:24.
pub const CTL1_REFPSC_DIV1: u32 = 0;
/// `CTL1.CKLIM` used with USB start-of-frame pulses, bits 23:16.
pub const CTL1_CKLIM_USB: u32 = 0x22;
/// `CTL1.RLVALUE` used with USB start-of-frame pulses: 48 MHz / 1 kHz.
pub const CTL1_RLVALUE_USB: u32 = 48_000;
/// `INTC`: clear bits of the CKOK, CKWARN, ERR and EREF flags.
pub const INTC_ALL: u32 = 0x000f;

/// Configuration for the CTC (PLL48M trimmer).
#[derive(Clone, Copy, Debug, PartialEq, Eq, Structural)]
pub struct CtcConfig {
    /// Enable CTC sync from USB Start Of Frame (SOF) events.
    ///
    /// Required if the PLL48M clock is going to be used as USB clock.
    ///
    /// Other use cases of the CTC are not supported yet.
    pub sync_from_usb: bool,
}

impl CtcConfig {
    /// The default configuration: no synchronization.
    pub fn new() -> (r: Self)
        ensures
            !r.sync_from_usb,
    {
        Self { sync_from_usb: false }
    }
}

impl Default for CtcConfig {
    fn default() -> (r: Self)
        ensures
            !r.sync_from_usb,
    {
        Self::new()
    }
}

/// The `CTL1` value for USB start-of-frame synchronization: one SOF pulse
/// per millisecond, so 48000 PLL48M cycles between two pulses.
pub open spec fn usb_ctl1_value() -> u32 {
    (CTL1_REFSEL_USBSOF << 28u32) | (CTL1_REFPSC_DIV1 << 24u32) | (CTL1_CKLIM_USB << 16u32)
        | CTL1_RLVALUE_USB
}

/// The program of [`init_ctc`].
pub open spec fn init_ops(config: CtcConfig) -> Seq<Op> {
    seq![Op::EnableClock { periph: Peripheral::Ctc }] + if config.sync_from_usb {
        seq![
            Op::Write { reg: Reg::CtcCtl1, value: usb_ctl1_value() },
            Op::Write { reg: Reg::CtcIntc, value: INTC_ALL },
            Op::Modify {
                reg: Reg::CtcCtl0,
                mask: CTL0_AUTOTRIM | CTL0_CNTEN,
                value: CTL0_AUTOTRIM | CTL0_CNTEN,
            },
        ]
    } else {
        Seq::empty()
    }
}

/// Enable the CTC and, with `sync_from_usb`, start automatic trimming
/// against USB start-of-frame pulses. Returns the PLL48M frequency in hertz.
///
/// `CTL1` is programmed before the counter is enabled, because it cannot be
/// modified while `CNTEN` is set; `CTL0` is modified rather than written so
/// that its reset `TRIMVALUE` is kept.
pub fn init_ctc(config: CtcConfig, ops: &mut Vec<Op>) -> (hz: u32)
    ensures
        hz == PLL48M_FREQ,
        final(ops)@ == old(ops)@ + init_ops(config),
{
    ops.push(Op::EnableClock { periph: Peripheral::Ctc });
    if config.sync_from_usb {
        let ctl1 = (CTL1_REFSEL_USBSOF << 28u32) | (CTL1_REFPSC_DIV1 << 24u32) | (CTL1_CKLIM_USB
            << 16u32) | CTL1_RLVALUE_USB;
        ops.push(Op::Write { reg: Reg::CtcCtl1, value: ctl1 });
        ops.push(Op::Write { reg: Reg::CtcIntc, value: INTC_ALL });
        ops.push(
            Op::Modify {
                reg: Reg::CtcCtl0,
                mask: CTL0_AUTOTRIM | CTL0_CNTEN,
                value: CTL0_AUTOTRIM | CTL0_CNTEN,
            },
        );
    }
    assert(final(ops)@ =~= old(ops)@ + init_ops(config));
    PLL48M_FREQ
}

/// The current hardware trimming step (`CTL0.TRIMVALUE`), from the value
/// `ctl0` read from `CTL0`.
///
/// One step corresponds to roughly ±0.25 % of the PLL48M frequency. While
/// automatic trimming is active, hardware adjusts this value itself.
pub fn trim_value(ctl0: u32) -> (r: u8)
    ensures
        r == (ctl0 & CTL0_TRIMVALUE) >> 8u32,
        r < 128,
{
    assert((ctl0 & 0x7f00u32) >> 8u32 < 128) by (bit_vector);
    ((ctl0 & CTL0_TRIMVALUE) >> 8u32) as u8
}

/// The counter value captured on the last reference pulse (`SR.REFCAP`,
/// bits 31:16), from the value `sr` read from `SR`.
///
/// With USB SOF sync this is the number of PLL48M cycles counted during the
/// last millisecond, nominally 48000.
pub fn ref_capture(sr: u32) -> (r: u16)
    ensures
        r == sr >> 16u32,
{
    assert(sr >> 16u32 <= 0xffff) by (bit_vector);
    (sr >> 16u32) as u16
}

/// Law: the USB synchronization settings decode from `CTL1` as the
/// reference manual asks for USB operation: reload value 48000, frequency
/// error limit 0x22, undivided USB start-of-frame reference.
pub proof fn lemma_usb_ctl1_fields()
    ensures
        usb_ctl1_value() & 0xffff == 48_000,
        (usb_ctl1_value() >> 16u32) & 0xff == 0x22,
        (usb_ctl1_value() >> 24u32) & 0x7 == 0,
        (usb_ctl1_value() >> 28u32) & 0x3 == 2,
{
    assert((((2u32 << 28u32) | (0u32 << 24u32) | (0x22u32 << 16u32) | 48_000u32) & 0xffff == 48_000) && ((((2u32
        << 28u32) | (0u32 << 24u32) | (0x22u32 << 16u32) | 48_000u32) >> 16u32) & 0xff == 0x22) && ((((2u32
        << 28u32) | (0u32 << 24u32) | (0x22u32 << 16u32) | 48_000u32) >> 24u32) & 0x7 == 0) && ((((2u32
        << 28u32) | (0u32 << 24u32) | (0x22u32 << 16u32) | 48_000u32) >> 28u32) & 0x3 == 2))
        by (bit_vector);
}

/// Law: with USB synchronization, `CTL1` is written before the counter is
/// enabled, and the enabling step keeps `CTL0.TRIMVALUE` (it does not touch
/// those bits).
pub proof fn lemma_ctl1_before_counter_enable(config: CtcConfig)
    requires
        config.sync_from_usb,
    ensures
        ({
            let ops = init_ops(config);
            &&& ops[1] == Op::Write { reg: Reg::CtcCtl1, value: usb_ctl1_value() }
            &&& ops[3] matches Op::Modify { reg: Reg::CtcCtl0, mask, value }
                && mask & CTL0_TRIMVALUE == 0 && value & CTL0_CNTEN != 0
            &&& forall|k: int| 0 <= k < 3 ==> !(#[trigger] ops[k] matches Op::Modify { reg: Reg::CtcCtl0, .. })
        }),
{
    assert((0x0040u32 | 0x0020u32) & 0x7f00u32 == 0) by (bit_vector);
    assert((0x0040u32 | 0x0020u32) & 0x0020u32 != 0) by (bit_vector);
    let ops = init_ops(config);
    assert(ops[0] == Op::EnableClock { periph: Peripheral::Ctc });
}

} // verus!

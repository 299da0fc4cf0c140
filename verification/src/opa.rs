//! Operational amplifier (OPA).
//!
//! The PY32 OPA block holds three independent op-amps behind a single RCC
//! gate. There is nothing to configure beyond enabling an amplifier and
//! optionally routing its output to the dedicated pad: gain is set with
//! external components, and the output always reaches the ADC and the
//! comparators internally.
//!
//! | Op-amp | + (VP) | − (VN) | OUT pad | ADC channel | COMP |
//! |---|---|---|---|---|---|
//! | [`Ch1`] | PA9 | PA10 | PA8 | 21 | COMP1_INP0 |
//! | [`Ch2`] | PA7 | PA6 | PA5 | 22 | COMP2_INP9 |
//! | [`Ch3`] | PB13 | PB12 | PB14 | 16 | COMP3_INP4 |
//!
//! Pins and ADC channels above are the PY32F040/F071/F072 mapping. PY32F031
//! shares the same die entry but wires OPA2 to PB3/PA15/PB4 and reports the
//! outputs on ADC channels 13/12, so the mapping is wrong there; it also has
//! no OPA3.
//!
//! The three amplifiers share `CR0` (output pad enables, one bit per
//! amplifier) and `CR1` (amplifier enables, one bit per amplifier), so every
//! read-modify-write of them runs with interrupts masked.

use core::marker::PhantomData;
use vstd::prelude::*;
use crate::bus::{Op, Reg, Peripheral, reg_after};
use crate::gpio::{Pin, PA10, PA5, PA6, PA7, PA8, PA9, PB12, PB13, PB14};

verus! {

trait SealedChannel {
}

impl SealedChannel for Ch1 {
}

impl SealedChannel for Ch2 {
}

impl SealedChannel for Ch3 {
}

/// Op-amp marker trait, implemented by [`Ch1`], [`Ch2`] and [`Ch3`] only.
#[allow(private_bounds)]
pub trait Channel: SealedChannel {
    /// Index into the `CR0` / `CR1` bit arrays.
    spec fn amp_index() -> u32;

    /// ADC channel the amplifier output is wired to internally.
    spec fn adc_input() -> u8;

    fn index() -> (r: u32)
        ensures
            r == Self::amp_index(),
            r < 3,
    ;

    fn adc_channel() -> (r: u8)
        ensures
            r == Self::adc_input(),
    ;
}

/// OPA1 marker type.
pub struct Ch1;

/// OPA2 marker type.
pub struct Ch2;

/// OPA3 marker type.
pub struct Ch3;

impl Channel for Ch1 {
    open spec fn amp_index() -> u32 {
        0
    }

    open spec fn adc_input() -> u8 {
        21
    }

    fn index() -> (r: u32) {
        0
    }

    fn adc_channel() -> (r: u8) {
        21
    }
}

impl Channel for Ch2 {
    open spec fn amp_index() -> u32 {
        1
    }

    open spec fn adc_input() -> u8 {
        22
    }

    fn index() -> (r: u32) {
        1
    }

    fn adc_channel() -> (r: u8) {
        22
    }
}

impl Channel for Ch3 {
    open spec fn amp_index() -> u32 {
        2
    }

    open spec fn adc_input() -> u8 {
        16
    }

    fn index() -> (r: u32) {
        2
    }

    fn adc_channel() -> (r: u8) {
        16
    }
}

/// A pin that can be an op-amp's non-inverting input.
pub trait VpPin<C: Channel>: Pin {
}

/// A pin that can be an op-amp's inverting input.
pub trait VnPin<C: Channel>: Pin {
}

/// A pin that can carry an op-amp's output.
pub trait VoutPin<C: Channel>: Pin {
}

impl VpPin<Ch1> for PA9 {
}

impl VnPin<Ch1> for PA10 {
}

impl VoutPin<Ch1> for PA8 {
}

impl VpPin<Ch2> for PA7 {
}

impl VnPin<Ch2> for PA6 {
}

impl VoutPin<Ch2> for PA5 {
}

impl VpPin<Ch3> for PB13 {
}

impl VnPin<Ch3> for PB12 {
}

impl VoutPin<Ch3> for PB14 {
}

/// The bit of amplifier `index` in `CR0` and in `CR1`.
pub open spec fn amp_bit(index: u32) -> u32 {
    1u32 << index
}

/// The program that sets or clears the bit of amplifier `index` in `reg`,
/// with interrupts masked.
pub open spec fn amp_bit_ops(reg: Reg, index: u32, on: bool) -> Seq<Op> {
    seq![
        Op::EnterCritical,
        Op::Modify { reg, mask: amp_bit(index), value: if on { amp_bit(index) } else { 0 } },
        Op::ExitCritical,
    ]
}

/// The program that turns amplifier `index` off: output pad first, then the
/// amplifier.
pub open spec fn amp_off_ops(index: u32) -> Seq<Op> {
    seq![
        Op::EnterCritical,
        Op::Modify { reg: Reg::OpaCr0, mask: amp_bit(index), value: 0 },
        Op::Modify { reg: Reg::OpaCr1, mask: amp_bit(index), value: 0 },
        Op::ExitCritical,
    ]
}

/// OPA driver.
pub struct Opa {
    _private: (),
}

impl Opa {
    /// Instantiates the OPA peripheral.
    pub fn new(ops: &mut Vec<Op>) -> (r: Self)
        ensures
            final(ops)@ == old(ops)@.push(Op::EnableClock { periph: Peripheral::Opa }),
    {
        ops.push(Op::EnableClock { periph: Peripheral::Opa });
        Opa { _private: () }
    }

    /// Enables one op-amp on its dedicated input pins, which are put in
    /// analog mode.
    ///
    /// Gain is set by whatever feedback network is wired between the output
    /// and the inverting input; with the output tied straight back to it the
    /// amplifier is a unity-gain buffer.
    ///
    /// The output is available internally to the ADC (see
    /// [`OpaChannel::channel`]) and to the comparators. Use
    /// [`OpaChannel::enable_output`] to also drive the dedicated pad.
    pub fn enable<'a, C: Channel, VP: VpPin<C>, VN: VnPin<C>>(
        &'a self,
        vp: VP,
        vn: VN,
        ops: &mut Vec<Op>,
    ) -> (r: OpaChannel<'a, C>)
        ensures
            final(ops)@ == old(ops)@ + seq![
                Op::SetAnalog { pin: VP::pin_id() },
                Op::SetAnalog { pin: VN::pin_id() },
            ] + amp_bit_ops(Reg::OpaCr1, C::amp_index(), true),
    {
        ops.push(Op::SetAnalog { pin: VP::id() });
        ops.push(Op::SetAnalog { pin: VN::id() });
        let bit = 1u32 << C::index();
        ops.push(Op::EnterCritical);
        ops.push(Op::Modify { reg: Reg::OpaCr1, mask: bit, value: bit });
        ops.push(Op::ExitCritical);
        assert(final(ops)@ =~= old(ops)@ + seq![
            Op::SetAnalog { pin: VP::pin_id() },
            Op::SetAnalog { pin: VN::pin_id() },
        ] + amp_bit_ops(Reg::OpaCr1, C::amp_index(), true));
        OpaChannel { _opa: PhantomData, _ch: PhantomData }
    }

    /// Release the OPA block: disable its clock.
    pub fn release(self, ops: &mut Vec<Op>)
        ensures
            final(ops)@ == old(ops)@.push(Op::DisableClock { periph: Peripheral::Opa }),
    {
        ops.push(Op::DisableClock { periph: Peripheral::Opa });
    }
}

/// A single enabled op-amp. It borrows the [`Opa`] it came from, so the OPA
/// block cannot be released while the amplifier is enabled.
///
/// Release it with [`OpaChannel::release`] to disable the amplifier. Its
/// output can be read by the ADC on [`OpaChannel::channel`].
pub struct OpaChannel<'a, C: Channel> {
    _opa: PhantomData<&'a Opa>,
    _ch: PhantomData<C>,
}

impl<'a, C: Channel> OpaChannel<'a, C> {
    /// Routes the amplifier output to its dedicated pad, whose pin is put in
    /// analog mode.
    pub fn enable_output<VO: VoutPin<C>>(&mut self, vout: VO, ops: &mut Vec<Op>)
        ensures
            *final(self) == *old(self),
            final(ops)@ == old(ops)@ + seq![Op::SetAnalog { pin: VO::pin_id() }] + amp_bit_ops(
                Reg::OpaCr0,
                C::amp_index(),
                true,
            ),
    {
        ops.push(Op::SetAnalog { pin: VO::id() });
        let bit = 1u32 << C::index();
        ops.push(Op::EnterCritical);
        ops.push(Op::Modify { reg: Reg::OpaCr0, mask: bit, value: bit });
        ops.push(Op::ExitCritical);
        assert(final(ops)@ =~= old(ops)@ + seq![Op::SetAnalog { pin: VO::pin_id() }] + amp_bit_ops(
            Reg::OpaCr0,
            C::amp_index(),
            true,
        ));
    }

    /// Stops driving the dedicated output pad. The output stays available
    /// internally to the ADC and the comparators.
    pub fn disable_output(&mut self, ops: &mut Vec<Op>)
        ensures
            *final(self) == *old(self),
            final(ops)@ == old(ops)@ + amp_bit_ops(Reg::OpaCr0, C::amp_index(), false),
    {
        let bit = 1u32 << C::index();
        ops.push(Op::EnterCritical);
        ops.push(Op::Modify { reg: Reg::OpaCr0, mask: bit, value: 0 });
        ops.push(Op::ExitCritical);
        assert(final(ops)@ =~= old(ops)@ + amp_bit_ops(Reg::OpaCr0, C::amp_index(), false));
    }

    /// The ADC channel on which the amplifier output can be read.
    pub fn channel(&self) -> (r: u8)
        ensures
            r == C::adc_input(),
    {
        C::adc_channel()
    }

    /// Disable the amplifier: stop driving the pad, then turn it off.
    pub fn release(self, ops: &mut Vec<Op>)
        ensures
            final(ops)@ == old(ops)@ + amp_off_ops(C::amp_index()),
    {
        let bit = 1u32 << C::index();
        ops.push(Op::EnterCritical);
        ops.push(Op::Modify { reg: Reg::OpaCr0, mask: bit, value: 0 });
        ops.push(Op::Modify { reg: Reg::OpaCr1, mask: bit, value: 0 });
        ops.push(Op::ExitCritical);
        assert(final(ops)@ =~= old(ops)@ + amp_off_ops(C::amp_index()));
    }
}

/// Law: setting or clearing the bit of one amplifier leaves the bits of the
/// other amplifiers unchanged, in `CR0` as in `CR1`.
pub proof fn lemma_amplifiers_independent(reg: Reg, index: u32, on: bool, before: u32)
    requires
        index < 3,
    ensures
        ({
            let after = reg_after(reg, amp_bit_ops(reg, index, on), before);
            &&& after & amp_bit(index) == (if on { amp_bit(index) } else { 0 })
            &&& after & !amp_bit(index) == before & !amp_bit(index)
        }),
{
    reveal_with_fuel(reg_after, 4);
    let ops = amp_bit_ops(reg, index, on);
    assert(ops.drop_last().drop_last().drop_last() =~= Seq::<Op>::empty());
    let b = amp_bit(index);
    let v: u32 = if on { b } else { 0 };
    assert(v == b || v == 0u32 ==> ((before & !b) | (v & b)) & b == v && ((before & !b) | (v & b)) & !b
        == before & !b) by (bit_vector);
}

} // verus!

//! Digital-to-analog converter (DAC).
//!
//! Two output channels share one control register (`CR`); channel 2's fields
//! sit 16 bits above channel 1's. Every operation appends the register
//! accesses it needs to a program (see [`crate::bus`]).

use vstd::prelude::*;
use crate::gpio::{Pin, PinId, PA4, PA5};
use crate::bus::{Op, Reg, Peripheral, modify_word, reg_after, lemma_reg_after_concat};

verus! {

/// `CR.EN`: channel enable.
pub const CR_EN: u32 = 0x0001;
/// `CR.BOFF`: output buffer disable.
pub const CR_BOFF: u32 = 0x0002;
/// `CR.TEN`: trigger enable.
pub const CR_TEN: u32 = 0x0004;
/// `CR.TSEL`: trigger selection, bits 5:3.
pub const CR_TSEL: u32 = 0x0038;
/// `CR.WAVE`: wave generation, bits 7:6.
pub const CR_WAVE: u32 = 0x00c0;
/// `CR.DMAEN`: DMA request enable.
pub const CR_DMAEN: u32 = 0x1000;
/// `CR.DMAUDRIE`: DMA underrun interrupt enable.
pub const CR_DMAUDRIE: u32 = 0x2000;
/// All the bits of one channel's half of `CR`.
pub const CR_CHANNEL: u32 = 0x3fff;
/// `SR.DMAUDR`: DMA underrun flag, cleared by writing one.
pub const SR_DMAUDR: u32 = 0x2000;

/// The bits `bits` of channel `index` in a register shared by both channels.
pub open spec fn channel_field(index: usize, bits: u32) -> u32 {
    if index == 0 {
        bits
    } else {
        bits << 16u32
    }
}

fn channel_mask(index: usize, bits: u32) -> (r: u32)
    requires
        index < 2,
    ensures
        r == channel_field(index, bits),
{
    if index == 0 {
        bits
    } else {
        bits << 16u32
    }
}

/// A DAC trigger source.
#[derive(Debug, Clone, Copy, PartialEq, Eq, Structural)]
pub enum Trigger {
    /// Timer 6 trigger output.
    Tim6,
    /// Timer 3 trigger output.
    Tim3,
    /// Timer 7 trigger output.
    Tim7,
    /// Timer 15 trigger output.
    Tim15,
    /// Timer 2 trigger output.
    Tim2,
    /// External interrupt line 9.
    Exti9,
    /// Software trigger, issued by [`DacChannel::trigger`].
    Software,
}

impl Trigger {
    /// The `CR.TSEL` code of this source.
    pub open spec fn tsel_code(self) -> u32 {
        match self {
            Trigger::Tim6 => 0,
            Trigger::Tim3 => 1,
            Trigger::Tim7 => 2,
            Trigger::Tim15 => 3,
            Trigger::Tim2 => 4,
            Trigger::Exti9 => 6,
            Trigger::Software => 7,
        }
    }

    fn tsel(self) -> (r: u32)
        ensures
            r == self.tsel_code(),
            r < 8,
    {
        match self {
            Trigger::Tim6 => 0,
            Trigger::Tim3 => 1,
            Trigger::Tim7 => 2,
            Trigger::Tim15 => 3,
            Trigger::Tim2 => 4,
            Trigger::Exti9 => 6,
            Trigger::Software => 7,
        }
    }

    /// Whether this source can pace DMA transfers: every source but the
    /// software trigger.
    pub open spec fn paces_dma(self) -> bool {
        self != Trigger::Software
    }

    fn drives_dma(self) -> (r: bool)
        ensures
            r == self.paces_dma(),
    {
        self != Trigger::Software
    }
}

/// Channel 1 marker type.
pub struct Ch1;

/// Channel 2 marker type.
pub struct Ch2;

trait SealedChannel {
}

impl SealedChannel for Ch1 {
}

impl SealedChannel for Ch2 {
}

/// DAC channel marker trait, implemented by [`Ch1`] and [`Ch2`] only.
#[allow(private_bounds)]
pub trait Channel: SealedChannel {
    /// The channel's index: 0 for channel 1, 1 for channel 2.
    spec fn channel_index() -> usize;

    fn index() -> (r: usize)
        ensures
            r == Self::channel_index(),
            r < 2,
    ;
}

impl Channel for Ch1 {
    open spec fn channel_index() -> usize {
        0
    }

    fn index() -> (r: usize) {
        0
    }
}

impl Channel for Ch2 {
    open spec fn channel_index() -> usize {
        1
    }

    fn index() -> (r: usize) {
        1
    }
}


/// A pin that can carry a DAC channel's analog output: PA4 for channel 1,
/// PA5 for channel 2.
pub trait DacPin<C: Channel>: Pin {
}

impl DacPin<Ch1> for PA4 {
}

impl DacPin<Ch2> for PA5 {
}

/// A right-aligned 12-bit DAC sample.
///
/// Only the low 12 bits are converted.
#[allow(non_camel_case_types)]
#[derive(Debug, Default, Copy, Clone, PartialEq, Eq, Structural)]
pub struct u12r(pub u16);

impl u12r {
    /// Construct a right-aligned sample, masking it to 12 bits.
    pub fn new(value: u16) -> (r: Self)
        ensures
            r.0 == value & 0x0fff,
            r.0 == value % 4096,
    {
        assert(value & 0x0fff == value % 4096) by (bit_vector);
        Self(value & 0x0fff)
    }
}

/// A left-aligned 12-bit DAC sample.
///
/// The sample is stored in the same representation written to the holding
/// register: bits 15:4 contain the value and bits 3:0 are zero. Use
/// [`u12l::new`] to convert a normal 12-bit value.
#[allow(non_camel_case_types)]
#[derive(Debug, Default, Copy, Clone, PartialEq, Eq, Structural)]
pub struct u12l(pub u16);

impl u12l {
    /// Construct a left-aligned sample from a normal 12-bit value.
    pub fn new(value: u16) -> (r: Self)
        ensures
            r.0 == (value & 0x0fff) << 4u16,
            r.0 == (value % 4096) * 16,
    {
        assert((value & 0x0fff) << 4u16 == (value % 4096) * 16) by (bit_vector);
        Self((value & 0x0fff) << 4u16)
    }
}

trait SealedWord {
}

impl SealedWord for u8 {
}

impl SealedWord for u12r {
}

impl SealedWord for u12l {
}

/// A sample representation supported by the DAC holding registers:
/// [`u8`], [`u12r`] and [`u12l`].
#[allow(private_bounds)]
pub trait Word: SealedWord + Sized + Copy {
    /// The register write that stores `value` for channel `index`.
    spec fn single_write(index: usize, value: Self) -> Op;

    /// The register write that stores both channels' samples at once.
    spec fn dual_write(values: (Self, Self)) -> Op;

    /// The holding register a DMA transfer of this representation feeds.
    spec fn dma_register(index: usize) -> Reg;

    /// The size in bytes of one sample in memory.
    spec fn memory_bytes() -> u8;

    /// The 12-bit value the holding register of channel `index` holds after
    /// `single_write(index, value)`.
    spec fn held_sample(value: Self) -> u32;

    fn set_value(ops: &mut Vec<Op>, index: usize, value: Self)
        requires
            index < 2,
        ensures
            final(ops)@ == old(ops)@.push(Self::single_write(index, value)),
    ;

    fn set_values(ops: &mut Vec<Op>, values: (Self, Self))
        ensures
            final(ops)@ == old(ops)@.push(Self::dual_write(values)),
    ;

    fn dma_target(index: usize) -> (r: Reg)
        requires
            index < 2,
        ensures
            r == Self::dma_register(index),
    ;

    fn dma_word_bytes() -> (r: u8)
        ensures
            r == Self::memory_bytes(),
    ;
}

impl Word for u8 {
    open spec fn single_write(index: usize, value: Self) -> Op {
        Op::Write { reg: Reg::DacDhr8r(index), value: value as u32 }
    }

    open spec fn dual_write(values: (Self, Self)) -> Op {
        Op::Write { reg: Reg::DacDhr8rd, value: (values.0 as u32) | ((values.1 as u32) << 8u32) }
    }

    open spec fn dma_register(index: usize) -> Reg {
        Reg::DacDhr8r(index)
    }

    open spec fn memory_bytes() -> u8 {
        1
    }

    /// The 8-bit register fills bits 11:4 of the 12-bit holding register.
    open spec fn held_sample(value: Self) -> u32 {
        (value as u32) << 4u32
    }

    fn set_value(ops: &mut Vec<Op>, index: usize, value: Self) {
        ops.push(Op::Write { reg: Reg::DacDhr8r(index), value: value as u32 });
    }

    fn set_values(ops: &mut Vec<Op>, values: (Self, Self)) {
        ops.push(
            Op::Write { reg: Reg::DacDhr8rd, value: (values.0 as u32) | ((values.1 as u32) << 8u32) },
        );
    }

    fn dma_target(index: usize) -> (r: Reg) {
        Reg::DacDhr8r(index)
    }

    fn dma_word_bytes() -> (r: u8) {
        1
    }
}

impl Word for u12r {
    open spec fn single_write(index: usize, value: Self) -> Op {
        Op::Write { reg: Reg::DacDhr12r(index), value: (value.0 & 0x0fff) as u32 }
    }

    open spec fn dual_write(values: (Self, Self)) -> Op {
        Op::Write {
            reg: Reg::DacDhr12rd,
            value: ((values.0.0 & 0x0fff) as u32) | (((values.1.0 & 0x0fff) as u32) << 16u32),
        }
    }

    open spec fn dma_register(index: usize) -> Reg {
        Reg::DacDhr12r(index)
    }

    open spec fn memory_bytes() -> u8 {
        2
    }

    open spec fn held_sample(value: Self) -> u32 {
        (value.0 & 0x0fff) as u32
    }

    fn set_value(ops: &mut Vec<Op>, index: usize, value: Self) {
        ops.push(Op::Write { reg: Reg::DacDhr12r(index), value: (value.0 & 0x0fff) as u32 });
    }

    fn set_values(ops: &mut Vec<Op>, values: (Self, Self)) {
        let ch1 = (values.0.0 & 0x0fff) as u32;
        let ch2 = ((values.1.0 & 0x0fff) as u32) << 16u32;
        ops.push(Op::Write { reg: Reg::DacDhr12rd, value: ch1 | ch2 });
    }

    fn dma_target(index: usize) -> (r: Reg) {
        Reg::DacDhr12r(index)
    }

    fn dma_word_bytes() -> (r: u8) {
        2
    }
}

impl Word for u12l {
    open spec fn single_write(index: usize, value: Self) -> Op {
        Op::Write { reg: Reg::DacDhr12l(index), value: (value.0 & 0xfff0) as u32 }
    }

    open spec fn dual_write(values: (Self, Self)) -> Op {
        Op::Write {
            reg: Reg::DacDhr12ld,
            value: ((values.0.0 & 0xfff0) as u32) | (((values.1.0 & 0xfff0) as u32) << 16u32),
        }
    }

    open spec fn dma_register(index: usize) -> Reg {
        Reg::DacDhr12l(index)
    }

    open spec fn memory_bytes() -> u8 {
        2
    }

    /// The left-aligned register holds the sample in bits 15:4.
    open spec fn held_sample(value: Self) -> u32 {
        ((value.0 & 0xfff0) as u32) >> 4u32
    }

    fn set_value(ops: &mut Vec<Op>, index: usize, value: Self) {
        ops.push(Op::Write { reg: Reg::DacDhr12l(index), value: (value.0 & 0xfff0) as u32 });
    }

    fn set_values(ops: &mut Vec<Op>, values: (Self, Self)) {
        let ch1 = (values.0.0 & 0xfff0) as u32;
        let ch2 = ((values.1.0 & 0xfff0) as u32) << 16u32;
        ops.push(Op::Write { reg: Reg::DacDhr12ld, value: ch1 | ch2 });
    }

    fn dma_target(index: usize) -> (r: Reg) {
        Reg::DacDhr12l(index)
    }

    fn dma_word_bytes() -> (r: u8) {
        2
    }
}

/// Law: `u12r::new(v)` and `u12l::new(v)` describe the same sample, the low
/// 12 bits of `v`: the DAC holds the same 12-bit value after either is
/// written.
pub proof fn lemma_alignments_hold_same_sample(v: u16)
    ensures
        <u12r as Word>::held_sample(u12r(v & 0x0fff)) == v % 4096,
        <u12l as Word>::held_sample(u12l((v & 0x0fff) << 4u16)) == v % 4096,
{
    assert(((v & 0x0fff) & 0x0fff) as u32 == v % 4096 && ((((v & 0x0fff) << 4u16) & 0xfff0) as u32) >> 4u32 == v
        % 4096) by (bit_vector);
}


/// How many channel handles of the DAC are alive.
///
/// The DAC's bus clock is enabled when the first handle is made and disabled
/// when the last one is released. There must be exactly one `DacState` for
/// the DAC, passed to every constructor and every release: the "already
/// owned" check only holds against handles counted in the same state. This
/// type does not enforce that there is only one.
pub struct DacState {
    owners: u8,
}

impl DacState {
    /// The number of live channel handles.
    pub closed spec fn owners(&self) -> nat {
        self.owners as nat
    }

    /// A state with no owner.
    pub fn new() -> (r: Self)
        ensures
            r.owners() == 0,
    {
        DacState { owners: 0 }
    }

    /// Whether no channel handle is alive.
    pub fn is_free(&self) -> (r: bool)
        ensures
            r == (self.owners() == 0),
    {
        self.owners == 0
    }

    /// Record `count` new owners. The peripheral must not be owned.
    fn acquire(&mut self, count: u8)
        requires
            old(self).owners() == 0,
        ensures
            final(self).owners() == count,
    {
        self.owners = count;
    }

    /// Drop one owner; returns whether it was the last one.
    fn release(&mut self) -> (last: bool)
        requires
            old(self).owners() > 0,
        ensures
            final(self).owners() == old(self).owners() - 1,
            last == (old(self).owners() == 1),
    {
        let remaining = self.owners - 1;
        self.owners = remaining;
        remaining == 0
    }
}

/// The start of a DAC's opening: its output pins in analog mode, then its
/// clock enabled.
pub open spec fn open_ops(pins: Seq<PinId>) -> Seq<Op> {
    pins.map_values(|pin: PinId| Op::SetAnalog { pin }) + seq![Op::EnableClock { periph: Peripheral::Dac }]
}

/// The program that puts channel `index` in its initial state: output
/// buffer on, no trigger, no wave generation, no DMA, then enabled.
pub open spec fn init_ops(index: usize) -> Seq<Op> {
    seq![
        Op::Modify {
            reg: Reg::DacCr,
            mask: channel_field(index, CR_EN | CR_BOFF | CR_TEN | CR_WAVE | CR_DMAEN | CR_DMAUDRIE),
            value: 0,
        },
    ] + enable_ops(index, true)
}

/// The program that sets `CR.EN` of channel `index` to `enabled`.
pub open spec fn enable_ops(index: usize, enabled: bool) -> Seq<Op> {
    seq![
        Op::EnterCritical,
        Op::Modify {
            reg: Reg::DacCr,
            mask: channel_field(index, CR_EN),
            value: if enabled { channel_field(index, CR_EN) } else { 0 },
        },
        Op::ExitCritical,
    ]
}

/// The three read-modify-writes of `CR` that change the trigger of channel
/// `index`: disable the channel, select the trigger, restore `CR.EN` as it
/// was in `cr`.
pub open spec fn trigger_steps(index: usize, cr: u32, trigger: Option<Trigger>) -> Seq<Op> {
    seq![
        Op::Modify { reg: Reg::DacCr, mask: channel_field(index, CR_EN), value: 0 },
        match trigger {
            Some(t) => Op::Modify {
                reg: Reg::DacCr,
                mask: channel_field(index, CR_TSEL | CR_TEN),
                value: channel_field(index, (t.tsel_code() << 3u32) | CR_TEN),
            },
            None => Op::Modify { reg: Reg::DacCr, mask: channel_field(index, CR_TEN), value: 0 },
        },
        Op::Modify {
            reg: Reg::DacCr,
            mask: channel_field(index, CR_EN),
            value: cr & channel_field(index, CR_EN),
        },
    ]
}

/// The program of [`DacChannel::set_trigger`].
pub open spec fn trigger_ops(index: usize, cr: u32, trigger: Option<Trigger>) -> Seq<Op> {
    seq![Op::EnterCritical] + trigger_steps(index, cr, trigger) + seq![Op::ExitCritical]
}

/// The program that starts a DMA transfer of `len` samples of type `W` on
/// channel `index`: clear the underrun flag, arm the DMA channel, then let
/// the DAC issue requests.
pub open spec fn dma_start_ops<W: Word>(index: usize, len: u16, circular: bool) -> Seq<Op> {
    seq![
        Op::Write { reg: Reg::DacSr, value: channel_field(index, SR_DMAUDR) },
        Op::StartDma {
            target: W::dma_register(index),
            memory_word_bytes: W::memory_bytes(),
            len,
            circular,
            complete_transfer_irq: !circular,
        },
        Op::Modify {
            reg: Reg::DacCr,
            mask: channel_field(index, CR_EN | CR_DMAEN),
            value: channel_field(index, CR_EN | CR_DMAEN),
        },
    ]
}

/// Driver for one DAC channel.
///
/// Use [`Dac`] when both output channels are required.
pub struct DacChannel {
    index: usize,
    trigger: Option<Trigger>,
    dma: bool,
}

impl DacChannel {
    #[verifier::type_invariant]
    spec fn inv(self) -> bool {
        self.index < 2
    }

    /// The channel's index: 0 for channel 1, 1 for channel 2.
    pub closed spec fn channel(&self) -> usize {
        self.index
    }

    /// The trigger the channel is configured with.
    pub closed spec fn trigger_source(&self) -> Option<Trigger> {
        self.trigger
    }

    /// Whether the channel was made with a DMA channel.
    pub closed spec fn has_dma(&self) -> bool {
        self.dma
    }

    /// The trigger the channel is configured with.
    pub fn trigger_config(&self) -> (r: Option<Trigger>)
        ensures
            r == self.trigger_source(),
    {
        self.trigger
    }

    /// Whether the channel was made with a DMA channel.
    pub fn has_dma_channel(&self) -> (r: bool)
        ensures
            r == self.has_dma(),
    {
        self.dma
    }

    fn new_inner(index: usize, dma: bool, ops: &mut Vec<Op>) -> (r: Self)
        requires
            index < 2,
        ensures
            r.channel() == index,
            r.trigger_source() == None::<Trigger>,
            r.has_dma() == dma,
            final(ops)@ == old(ops)@ + init_ops(index),
    {
        let mask = channel_mask(index, CR_EN | CR_BOFF | CR_TEN | CR_WAVE | CR_DMAEN | CR_DMAUDRIE);
        ops.push(Op::Modify { reg: Reg::DacCr, mask, value: 0 });
        let mut channel = DacChannel { index, trigger: None, dma };
        channel.enable(ops);
        assert(final(ops)@ =~= old(ops)@ + init_ops(index));
        channel
    }

    /// The channel's index: 0 for channel 1, 1 for channel 2.
    pub fn index(&self) -> (r: usize)
        ensures
            r == self.channel(),
            r < 2,
    {
        proof {
            use_type_invariant(self);
        }
        self.index
    }

    /// The opening of a single channel: its pin in analog mode, the DAC's
    /// clock enabled, then the channel initialised.
    fn open<C: Channel, P: DacPin<C>>(state: &mut DacState, dma: bool, ops: &mut Vec<Op>) -> (r: Self)
        requires
            old(state).owners() == 0,
        ensures
            r.channel() == C::channel_index(),
            r.trigger_source() == None::<Trigger>,
            r.has_dma() == dma,
            final(state).owners() == 1,
            final(ops)@ == old(ops)@ + open_ops(seq![P::pin_id()]) + init_ops(C::channel_index()),
    {
        ops.push(Op::SetAnalog { pin: P::id() });
        ops.push(Op::EnableClock { periph: Peripheral::Dac });
        state.acquire(1);
        let r = Self::new_inner(C::index(), dma, ops);
        assert(final(ops)@ =~= old(ops)@ + open_ops(seq![P::pin_id()]) + init_ops(C::channel_index()));
        r
    }

    /// Create a blocking DAC channel on its output pin, with triggering
    /// disabled and the output buffer enabled. The DAC must not be owned yet.
    pub fn new_blocking<C: Channel, P: DacPin<C>>(state: &mut DacState, pin: P, ops: &mut Vec<Op>) -> (r: Self)
        requires
            old(state).owners() == 0,
        ensures
            r.channel() == C::channel_index(),
            r.trigger_source() == None::<Trigger>,
            !r.has_dma(),
            final(state).owners() == 1,
            final(ops)@ == old(ops)@ + open_ops(seq![P::pin_id()]) + init_ops(C::channel_index()),
    {
        Self::open::<C, P>(state, false, ops)
    }

    /// Create an async-capable DAC channel on its output pin, with
    /// triggering disabled.
    ///
    /// Call [`DacChannel::set_trigger`] with an external trigger before using
    /// DMA.
    pub fn new<C: Channel, P: DacPin<C>>(state: &mut DacState, pin: P, ops: &mut Vec<Op>) -> (r: Self)
        requires
            old(state).owners() == 0,
        ensures
            r.channel() == C::channel_index(),
            r.trigger_source() == None::<Trigger>,
            r.has_dma(),
            final(state).owners() == 1,
            final(ops)@ == old(ops)@ + open_ops(seq![P::pin_id()]) + init_ops(C::channel_index()),
    {
        Self::open::<C, P>(state, true, ops)
    }

    /// Create an async DAC channel on its output pin, paced by an external
    /// trigger. Software triggers cannot drive DMA.
    pub fn new_triggered<C: Channel, P: DacPin<C>>(
        state: &mut DacState,
        trigger: Trigger,
        pin: P,
        ops: &mut Vec<Op>,
    ) -> (r: Self)
        requires
            old(state).owners() == 0,
            trigger.paces_dma(),
        ensures
            r.channel() == C::channel_index(),
            r.trigger_source() == Some(trigger),
            r.has_dma(),
            final(state).owners() == 1,
            final(ops)@ == old(ops)@ + open_ops(seq![P::pin_id()]) + init_ops(C::channel_index())
                + trigger_ops(
                C::channel_index(),
                channel_field(C::channel_index(), CR_EN),
                Some(trigger),
            ),
    {
        let mut channel = Self::new::<C, P>(state, pin, ops);
        let en = channel_mask(C::index(), CR_EN);
        channel.set_trigger(ops, en, Some(trigger));
        channel
    }

    /// Enable or disable this channel.
    pub fn set_enable(&mut self, ops: &mut Vec<Op>, enabled: bool)
        ensures
            *final(self) == *old(self),
            final(ops)@ == old(ops)@ + enable_ops(old(self).channel(), enabled),
    {
        proof {
            use_type_invariant(&*self);
        }
        let mask = channel_mask(self.index, CR_EN);
        ops.push(Op::EnterCritical);
        ops.push(Op::Modify { reg: Reg::DacCr, mask, value: if enabled { mask } else { 0 } });
        ops.push(Op::ExitCritical);
        assert(final(ops)@ =~= old(ops)@ + enable_ops(old(self).channel(), enabled));
    }

    /// Enable this channel.
    pub fn enable(&mut self, ops: &mut Vec<Op>)
        ensures
            *final(self) == *old(self),
            final(ops)@ == old(ops)@ + enable_ops(old(self).channel(), true),
    {
        self.set_enable(ops, true);
    }

    /// Disable this channel.
    pub fn disable(&mut self, ops: &mut Vec<Op>)
        ensures
            *final(self) == *old(self),
            final(ops)@ == old(ops)@ + enable_ops(old(self).channel(), false),
    {
        self.set_enable(ops, false);
    }

    /// Configure or disable channel triggering.
    ///
    /// `cr` is the value of `CR` read just before. The channel is temporarily
    /// disabled because the trigger selection cannot change while the channel
    /// is enabled; its previous enable state, taken from `cr`, is restored.
    pub fn set_trigger(&mut self, ops: &mut Vec<Op>, cr: u32, trigger: Option<Trigger>)
        ensures
            final(self).channel() == old(self).channel(),
            final(self).has_dma() == old(self).has_dma(),
            final(self).trigger_source() == trigger,
            final(ops)@ == old(ops)@ + trigger_ops(old(self).channel(), cr, trigger),
    {
        proof {
            use_type_invariant(&*self);
        }
        let index = self.index;
        let en = channel_mask(index, CR_EN);
        ops.push(Op::EnterCritical);
        ops.push(Op::Modify { reg: Reg::DacCr, mask: en, value: 0 });
        match trigger {
            Some(t) => {
                let mask = channel_mask(index, CR_TSEL | CR_TEN);
                let value = channel_mask(index, (t.tsel() << 3u32) | CR_TEN);
                ops.push(Op::Modify { reg: Reg::DacCr, mask, value });
            },
            None => {
                let mask = channel_mask(index, CR_TEN);
                ops.push(Op::Modify { reg: Reg::DacCr, mask, value: 0 });
            },
        }
        ops.push(Op::Modify { reg: Reg::DacCr, mask: en, value: cr & en });
        ops.push(Op::ExitCritical);
        self.trigger = trigger;
        assert(final(ops)@ =~= old(ops)@ + trigger_ops(old(self).channel(), cr, trigger));
    }

    /// Issue a software trigger. The channel must be configured with
    /// `Some(Trigger::Software)`.
    pub fn trigger(&mut self, ops: &mut Vec<Op>)
        requires
            old(self).trigger_source() == Some(Trigger::Software),
        ensures
            *final(self) == *old(self),
            final(ops)@ == old(ops)@.push(
                Op::Write { reg: Reg::DacSwtrigr, value: 1u32 << (old(self).channel() as u32) },
            ),
    {
        proof {
            use_type_invariant(&*self);
        }
        ops.push(Op::Write { reg: Reg::DacSwtrigr, value: 1u32 << (self.index as u32) });
    }

    /// Write a new sample into this channel's holding register.
    ///
    /// With triggering disabled the output updates automatically. With
    /// triggering enabled, the new value is transferred to the output
    /// register by the next selected trigger.
    pub fn set<W: Word>(&mut self, ops: &mut Vec<Op>, value: W)
        ensures
            *final(self) == *old(self),
            final(ops)@ == old(ops)@.push(W::single_write(old(self).channel(), value)),
    {
        proof {
            use_type_invariant(&*self);
        }
        W::set_value(ops, self.index, value);
    }

    /// The output data register of this channel, which [`DacChannel::read`]
    /// decodes.
    pub fn output_register(&self) -> (r: Reg)
        ensures
            r == Reg::DacDor(self.channel()),
    {
        Reg::DacDor(self.index)
    }

    /// The current 12-bit output value, given the value `dor` read from
    /// [`DacChannel::output_register`].
    pub fn read(&self, dor: u32) -> (r: u16)
        ensures
            r == dor & 0x0fff,
    {
        assert(dor & 0x0fff <= 0x0fff) by (bit_vector);
        (dor & 0x0fff) as u16
    }

    /// Write a finite sample buffer of `len` samples using DMA.
    ///
    /// The channel must have a DMA channel and use an external trigger, and
    /// the buffer must hold 1 to 65,535 samples. When the transfer completes
    /// or is abandoned, run [`DacChannel::stop_dma`].
    pub fn write<W: Word>(&mut self, ops: &mut Vec<Op>, len: usize)
        requires
            old(self).has_dma(),
            old(self).trigger_source() matches Some(t) && t.paces_dma(),
            1 <= len <= 65535,
        ensures
            *final(self) == *old(self),
            final(ops)@ == old(ops)@ + dma_start_ops::<W>(old(self).channel(), len as u16, false),
    {
        self.start_dma::<W>(ops, false, len);
    }

    /// Continuously repeat a sample buffer of `len` samples using circular
    /// DMA, under the same conditions as [`DacChannel::write`].
    pub fn write_circular<W: Word>(&mut self, ops: &mut Vec<Op>, len: usize)
        requires
            old(self).has_dma(),
            old(self).trigger_source() matches Some(t) && t.paces_dma(),
            1 <= len <= 65535,
        ensures
            *final(self) == *old(self),
            final(ops)@ == old(ops)@ + dma_start_ops::<W>(old(self).channel(), len as u16, true),
    {
        self.start_dma::<W>(ops, true, len);
    }

    /// Whether a DMA transfer of `len` samples may start: the channel has an
    /// external trigger and `len` is in 1..=65535.
    pub fn dma_transfer_allowed(&self, len: usize) -> (r: bool)
        ensures
            r == ((self.trigger_source() matches Some(t) && t.paces_dma()) && 1 <= len <= 65535),
    {
        let triggered = match self.trigger {
            Some(t) => t.drives_dma(),
            None => false,
        };
        triggered && 1 <= len && len <= 65535
    }

    fn start_dma<W: Word>(&mut self, ops: &mut Vec<Op>, circular: bool, len: usize)
        requires
            1 <= len <= 65535,
        ensures
            *final(self) == *old(self),
            final(ops)@ == old(ops)@ + dma_start_ops::<W>(old(self).channel(), len as u16, circular),
    {
        proof {
            use_type_invariant(&*self);
        }
        let index = self.index;
        ops.push(Op::Write { reg: Reg::DacSr, value: channel_mask(index, SR_DMAUDR) });
        ops.push(
            Op::StartDma {
                target: W::dma_target(index),
                memory_word_bytes: W::dma_word_bytes(),
                len: len as u16,
                circular,
                complete_transfer_irq: !circular,
            },
        );
        let arm = channel_mask(index, CR_EN | CR_DMAEN);
        ops.push(Op::Modify { reg: Reg::DacCr, mask: arm, value: arm });
        assert(final(ops)@ =~= old(ops)@ + dma_start_ops::<W>(old(self).channel(), len as u16, circular));
    }

    /// Stop the DAC's DMA requests once a transfer completed or was abandoned.
    pub fn stop_dma(&self, ops: &mut Vec<Op>)
        ensures
            final(ops)@ == old(ops)@.push(
                Op::Modify { reg: Reg::DacCr, mask: channel_field(self.channel(), CR_DMAEN), value: 0 },
            ),
    {
        proof {
            use_type_invariant(self);
        }
        let mask = channel_mask(self.index, CR_DMAEN);
        ops.push(Op::Modify { reg: Reg::DacCr, mask, value: 0 });
    }

    /// Release the channel: stop its DMA requests and disable it, and when it
    /// was the DAC's last handle, disable the DAC's clock.
    pub fn release(self, state: &mut DacState, ops: &mut Vec<Op>)
        requires
            old(state).owners() > 0,
        ensures
            final(state).owners() == old(state).owners() - 1,
            final(ops)@ == old(ops)@ + seq![
                Op::Modify {
                    reg: Reg::DacCr,
                    mask: channel_field(self.channel(), CR_DMAEN | CR_EN),
                    value: 0,
                },
            ] + if old(state).owners() == 1 {
                seq![Op::DisableClock { periph: Peripheral::Dac }]
            } else {
                Seq::empty()
            },
    {
        proof {
            use_type_invariant(&self);
        }
        let mask = channel_mask(self.index, CR_DMAEN | CR_EN);
        ops.push(Op::Modify { reg: Reg::DacCr, mask, value: 0 });
        if state.release() {
            ops.push(Op::DisableClock { periph: Peripheral::Dac });
        }
        assert(final(ops)@ =~= old(ops)@ + seq![
            Op::Modify { reg: Reg::DacCr, mask: channel_field(self.channel(), CR_DMAEN | CR_EN), value: 0 },
        ] + if old(state).owners() == 1 {
            seq![Op::DisableClock { periph: Peripheral::Dac }]
        } else {
            Seq::empty()
        });
    }
}



/// Driver for both channels of a dual-channel DAC.
pub struct Dac {
    ch1: DacChannel,
    ch2: DacChannel,
}

impl Dac {
    /// The handle of channel 1.
    pub closed spec fn first(&self) -> DacChannel {
        self.ch1
    }

    /// The handle of channel 2.
    pub closed spec fn second(&self) -> DacChannel {
        self.ch2
    }

    /// Whether the first handle is channel 1's and the second channel 2's.
    pub open spec fn wf(&self) -> bool {
        &&& self.first().channel() == 0
        &&& self.second().channel() == 1
    }

    /// Create a blocking dual-channel DAC on its two output pins. The DAC
    /// must not be owned yet.
    pub fn new_blocking<P1: DacPin<Ch1>, P2: DacPin<Ch2>>(
        state: &mut DacState,
        pin_ch1: P1,
        pin_ch2: P2,
        ops: &mut Vec<Op>,
    ) -> (r: Self)
        requires
            old(state).owners() == 0,
        ensures
            r.wf(),
            r.first().trigger_source() == None::<Trigger>,
            r.second().trigger_source() == None::<Trigger>,
            !r.first().has_dma(),
            !r.second().has_dma(),
            final(state).owners() == 2,
            final(ops)@ == old(ops)@ + open_ops(seq![P1::pin_id(), P2::pin_id()]) + init_ops(0)
                + init_ops(1),
    {
        Self::new_inner::<P1, P2>(state, ops, false)
    }

    /// Create an async-capable dual-channel DAC on its two output pins, with
    /// triggering disabled.
    pub fn new<P1: DacPin<Ch1>, P2: DacPin<Ch2>>(
        state: &mut DacState,
        pin_ch1: P1,
        pin_ch2: P2,
        ops: &mut Vec<Op>,
    ) -> (r: Self)
        requires
            old(state).owners() == 0,
        ensures
            r.wf(),
            r.first().trigger_source() == None::<Trigger>,
            r.second().trigger_source() == None::<Trigger>,
            r.first().has_dma(),
            r.second().has_dma(),
            final(state).owners() == 2,
            final(ops)@ == old(ops)@ + open_ops(seq![P1::pin_id(), P2::pin_id()]) + init_ops(0)
                + init_ops(1),
    {
        Self::new_inner::<P1, P2>(state, ops, true)
    }

    fn new_inner<P1: DacPin<Ch1>, P2: DacPin<Ch2>>(state: &mut DacState, ops: &mut Vec<Op>, dma: bool) -> (r: Self)
        requires
            old(state).owners() == 0,
        ensures
            r.wf(),
            r.first().trigger_source() == None::<Trigger>,
            r.second().trigger_source() == None::<Trigger>,
            r.first().has_dma() == dma,
            r.second().has_dma() == dma,
            final(state).owners() == 2,
            final(ops)@ == old(ops)@ + open_ops(seq![P1::pin_id(), P2::pin_id()]) + init_ops(0)
                + init_ops(1),
    {
        ops.push(Op::SetAnalog { pin: P1::id() });
        ops.push(Op::SetAnalog { pin: P2::id() });
        ops.push(Op::EnableClock { periph: Peripheral::Dac });
        state.acquire(2);
        let ch1 = DacChannel::new_inner(0, dma, ops);
        let ch2 = DacChannel::new_inner(1, dma, ops);
        assert(final(ops)@ =~= old(ops)@ + open_ops(seq![P1::pin_id(), P2::pin_id()]) + init_ops(0)
            + init_ops(1));
        Dac { ch1, ch2 }
    }

    /// Create an async dual-channel DAC on its two output pins, with
    /// independent external triggers.
    pub fn new_triggered<P1: DacPin<Ch1>, P2: DacPin<Ch2>>(
        state: &mut DacState,
        trigger_ch1: Trigger,
        trigger_ch2: Trigger,
        pin_ch1: P1,
        pin_ch2: P2,
        ops: &mut Vec<Op>,
    ) -> (r: Self)
        requires
            old(state).owners() == 0,
            trigger_ch1.paces_dma(),
            trigger_ch2.paces_dma(),
        ensures
            r.wf(),
            r.first().trigger_source() == Some(trigger_ch1),
            r.second().trigger_source() == Some(trigger_ch2),
            r.first().has_dma(),
            r.second().has_dma(),
            final(state).owners() == 2,
            final(ops)@ == old(ops)@ + open_ops(seq![P1::pin_id(), P2::pin_id()]) + init_ops(0)
                + init_ops(1) + trigger_ops(0, channel_field(0, CR_EN), Some(trigger_ch1))
                + trigger_ops(1, channel_field(1, CR_EN), Some(trigger_ch2)),
    {
        let mut dac = Self::new(state, pin_ch1, pin_ch2, ops);
        dac.ch1.set_trigger(ops, CR_EN, Some(trigger_ch1));
        let en2 = channel_mask(1, CR_EN);
        dac.ch2.set_trigger(ops, en2, Some(trigger_ch2));
        dac
    }

    /// Split this DAC into independently movable channel handles: channel 1's
    /// first, channel 2's second. No register is accessed.
    pub fn split(self) -> (r: (DacChannel, DacChannel))
        ensures
            r.0 == self.first(),
            r.1 == self.second(),
            self.wf() ==> r.0.channel() == 0 && r.1.channel() == 1,
    {
        (self.ch1, self.ch2)
    }

    /// Borrow channel 1. No register is accessed.
    pub fn ch1(&mut self) -> (r: &mut DacChannel)
        ensures
            *r == old(self).first(),
            old(self).wf() ==> r.channel() == 0,
            final(self).first() == *final(r),
            final(self).second() == old(self).second(),
            old(self).wf() ==> (final(self).wf() == (final(r).channel() == 0)),
    {
        &mut self.ch1
    }

    /// Borrow channel 2. No register is accessed.
    pub fn ch2(&mut self) -> (r: &mut DacChannel)
        ensures
            *r == old(self).second(),
            old(self).wf() ==> r.channel() == 1,
            final(self).second() == *final(r),
            final(self).first() == old(self).first(),
            old(self).wf() ==> (final(self).wf() == (final(r).channel() == 1)),
    {
        &mut self.ch2
    }

    /// Write both holding registers simultaneously.
    pub fn set<W: Word>(&mut self, ops: &mut Vec<Op>, values: (W, W))
        ensures
            *final(self) == *old(self),
            final(ops)@ == old(ops)@.push(W::dual_write(values)),
    {
        W::set_values(ops, values);
    }
}

/// Where the fields of channel `index` start in a shared register.
pub open spec fn channel_shift(index: usize) -> u32 {
    if index == 0 {
        0
    } else {
        16
    }
}

proof fn lemma_channel_field_shift(index: usize, bits: u32)
    ensures
        channel_field(index, bits) == bits << channel_shift(index),
{
    if index == 0 {
        assert(bits == bits << 0u32) by (bit_vector);
    }
}

/// The bit facts behind [`lemma_trigger_change`], for a channel whose fields
/// start at bit `sh`, trigger code `c`, and `some` telling whether a trigger
/// is selected.
proof fn lemma_trigger_bits(x: u32, cr: u32, c: u32, some: bool, sh: u32)
    by (bit_vector)
    requires
        c < 8,
        sh == 0 || sh == 16,
    ensures
        ({
            let en = 1u32 << sh;
            let ten = 4u32 << sh;
            let tsel = 0x38u32 << sh;
            let chan = 0x3fffu32 << sh;
            let m2 = if some { (0x38u32 | 4u32) << sh } else { 4u32 << sh };
            let v2 = if some { ((c << 3u32) | 4u32) << sh } else { 0u32 };
            let x1 = (x & !en) | (0u32 & en);
            let x2 = (x1 & !m2) | (v2 & m2);
            let x3 = (x2 & !en) | ((cr & en) & en);
            &&& x1 & en == 0
            &&& x2 & en == 0
            &&& x1 & (tsel | ten) == x & (tsel | ten)
            &&& x3 & (tsel | ten) == x2 & (tsel | ten)
            &&& x3 & en == cr & en
            &&& (some ==> x3 & tsel == (c << 3u32) << sh && x3 & ten == ten)
            &&& (!some ==> x3 & ten == 0 && x3 & tsel == x & tsel)
            &&& x3 & !chan == x & !chan
        }),
{
}

/// Law: the program of [`DacChannel::set_trigger`] changes `CR.TSEL` and
/// `CR.TEN` of the channel only while the channel is disabled, leaves
/// `CR.EN` as it was in `cr`, selects the requested trigger (or only clears
/// `CR.TEN` when there is none), and leaves the other channel's half of `CR`
/// alone. `x` is the value of `CR` when the program starts.
pub proof fn lemma_trigger_change(index: usize, cr: u32, trigger: Option<Trigger>, x: u32)
    requires
        index < 2,
    ensures
        ({
            let s = trigger_steps(index, cr, trigger);
            let en = channel_field(index, CR_EN);
            let tsel = channel_field(index, CR_TSEL);
            let ten = channel_field(index, CR_TEN);
            let chan = channel_field(index, CR_CHANNEL);
            let x1 = reg_after(Reg::DacCr, s.take(1), x);
            let x2 = reg_after(Reg::DacCr, s.take(2), x);
            let x3 = reg_after(Reg::DacCr, trigger_ops(index, cr, trigger), x);
            &&& x1 & en == 0
            &&& x2 & en == 0
            &&& x1 & (tsel | ten) == x & (tsel | ten)
            &&& x3 & (tsel | ten) == x2 & (tsel | ten)
            &&& x3 & en == cr & en
            &&& (trigger matches Some(t) ==> x3 & tsel == channel_field(index, t.tsel_code() << 3u32)
                && x3 & ten == ten)
            &&& (trigger is None ==> x3 & ten == 0 && x3 & tsel == x & tsel)
            &&& x3 & !chan == x & !chan
        }),
{
    reveal_with_fuel(reg_after, 2);
    let s = trigger_steps(index, cr, trigger);
    let ops = trigger_ops(index, cr, trigger);
    let sh = channel_shift(index);
    let some = trigger is Some;
    let c: u32 = match trigger {
        Some(t) => t.tsel_code(),
        None => 0,
    };
    assert(c < 8);
    // Unfold the program one step at a time.
    assert(s.take(1).drop_last() =~= Seq::<Op>::empty());
    assert(s.take(2).drop_last() =~= s.take(1));
    assert(s.drop_last() =~= s.take(2));
    assert(s.take(1).last() == s[0]);
    assert(s.take(2).last() == s[1]);
    let x3s = reg_after(Reg::DacCr, s, x);
    let enter = seq![Op::EnterCritical];
    let exit = seq![Op::ExitCritical];
    lemma_reg_after_concat(Reg::DacCr, enter, s, x);
    lemma_reg_after_concat(Reg::DacCr, enter + s, exit, x);
    assert(enter.drop_last() =~= Seq::<Op>::empty());
    assert(exit.drop_last() =~= Seq::<Op>::empty());
    assert(ops =~= (enter + s) + exit);
    lemma_trigger_bits(x, cr, c, some, sh);
    lemma_channel_field_shift(index, CR_EN);
    lemma_channel_field_shift(index, CR_TEN);
    lemma_channel_field_shift(index, CR_TSEL);
    lemma_channel_field_shift(index, CR_CHANNEL);
    lemma_channel_field_shift(index, CR_TSEL | CR_TEN);
    lemma_channel_field_shift(index, (c << 3u32) | CR_TEN);
    lemma_channel_field_shift(index, c << 3u32);
    let en = channel_field(index, CR_EN);
    let m2 = if some { channel_field(index, CR_TSEL | CR_TEN) } else { channel_field(index, CR_TEN) };
    let v2 = if some { channel_field(index, (c << 3u32) | CR_TEN) } else { 0u32 };
    let x1 = reg_after(Reg::DacCr, s.take(1), x);
    let x2 = reg_after(Reg::DacCr, s.take(2), x);
    assert(x1 == (x & !en) | (0u32 & en));
    assert(s[1] == Op::Modify { reg: Reg::DacCr, mask: m2, value: v2 });
    assert(x2 == (x1 & !m2) | (v2 & m2));
    assert(x3s == (x2 & !en) | ((cr & en) & en));
    assert(reg_after(Reg::DacCr, ops, x) == x3s);
}

proof fn lemma_init_bits(x: u32, sh: u32)
    by (bit_vector)
    requires
        sh == 0 || sh == 16,
    ensures
        ({
            let m1 = (0x0001u32 | 0x0002u32 | 0x0004u32 | 0x00c0u32 | 0x1000u32 | 0x2000u32) << sh;
            let en = 1u32 << sh;
            let chan = 0x3fffu32 << sh;
            let x1 = (x & !m1) | (0u32 & m1);
            let x2 = (x1 & !en) | (en & en);
            &&& x2 & en == en
            &&& x2 & ((0x0002u32 | 0x0004u32 | 0x00c0u32 | 0x1000u32 | 0x2000u32) << sh) == 0
            &&& x2 & !chan == x & !chan
        }),
{
}

proof fn lemma_enable_bits(x: u32, sh: u32, enabled: bool)
    by (bit_vector)
    requires
        sh == 0 || sh == 16,
    ensures
        ({
            let en = 1u32 << sh;
            let v = if enabled { en } else { 0u32 };
            let x1 = (x & !en) | (v & en);
            &&& x1 & en == v
            &&& x1 & !en == x & !en
        }),
{
}

/// Law: a new channel handle leaves its channel enabled with the output
/// buffer on, triggering, wave generation, DMA requests and the underrun
/// interrupt off, and the other channel's half of `CR` unchanged. `x` is the
/// value of `CR` before.
pub proof fn lemma_init_state(index: usize, x: u32)
    requires
        index < 2,
    ensures
        ({
            let y = reg_after(Reg::DacCr, init_ops(index), x);
            &&& y & channel_field(index, CR_EN) == channel_field(index, CR_EN)
            &&& y & channel_field(index, CR_BOFF | CR_TEN | CR_WAVE | CR_DMAEN | CR_DMAUDRIE) == 0
            &&& y & !channel_field(index, CR_CHANNEL) == x & !channel_field(index, CR_CHANNEL)
        }),
{
    reveal_with_fuel(reg_after, 2);
    let m1 = channel_field(index, CR_EN | CR_BOFF | CR_TEN | CR_WAVE | CR_DMAEN | CR_DMAUDRIE);
    let first = seq![Op::Modify { reg: Reg::DacCr, mask: m1, value: 0 }];
    let en_ops = enable_ops(index, true);
    assert(init_ops(index) =~= first + en_ops);
    lemma_reg_after_concat(Reg::DacCr, first, en_ops, x);
    assert(first.drop_last() =~= Seq::<Op>::empty());
    let x1 = reg_after(Reg::DacCr, first, x);
    lemma_enable_state(index, true, x1);
    lemma_init_bits(x, channel_shift(index));
    lemma_channel_field_shift(index, CR_EN | CR_BOFF | CR_TEN | CR_WAVE | CR_DMAEN | CR_DMAUDRIE);
    lemma_channel_field_shift(index, CR_BOFF | CR_TEN | CR_WAVE | CR_DMAEN | CR_DMAUDRIE);
    lemma_channel_field_shift(index, CR_EN);
    lemma_channel_field_shift(index, CR_CHANNEL);
    assert(x1 == (x & !m1) | (0u32 & m1));
}

/// Law: [`DacChannel::set_enable`] sets the channel's `CR.EN` to `enabled`
/// and leaves every other bit of `CR` unchanged. `x` is the value of `CR`
/// before.
pub proof fn lemma_enable_state(index: usize, enabled: bool, x: u32)
    requires
        index < 2,
    ensures
        ({
            let y = reg_after(Reg::DacCr, enable_ops(index, enabled), x);
            let en = channel_field(index, CR_EN);
            &&& y == modify_word(x, en, if enabled { en } else { 0 })
            &&& y & en == (if enabled { en } else { 0 })
            &&& y & !en == x & !en
        }),
{
    reveal_with_fuel(reg_after, 4);
    let ops = enable_ops(index, enabled);
    assert(ops.drop_last().drop_last().drop_last() =~= Seq::<Op>::empty());
    lemma_enable_bits(x, channel_shift(index), enabled);
    lemma_channel_field_shift(index, CR_EN);
}

/// Whether every store of `ops` into `CR` is a read-modify-write that only
/// changes bits of channel `index`.
pub open spec fn stays_in_channel(ops: Seq<Op>, index: usize) -> bool {
    forall|k: int|
        0 <= k < ops.len() ==> match #[trigger] ops[k] {
            Op::Modify { reg: Reg::DacCr, mask, .. } => mask & !channel_field(index, CR_CHANNEL) == 0,
            Op::Write { reg: Reg::DacCr, .. } => false,
            _ => true,
        }
}

/// A program that stays in channel `index` leaves the rest of `CR` as it was.
pub proof fn lemma_stays_in_channel_preserves_other(ops: Seq<Op>, index: usize, x: u32)
    requires
        stays_in_channel(ops, index),
    ensures
        reg_after(Reg::DacCr, ops, x) & !channel_field(index, CR_CHANNEL) == x & !channel_field(
            index,
            CR_CHANNEL,
        ),
    decreases ops.len(),
{
    if ops.len() > 0 {
        let prefix = ops.drop_last();
        assert forall|k: int| 0 <= k < prefix.len() implies match #[trigger] prefix[k] {
            Op::Modify { reg: Reg::DacCr, mask, .. } => mask & !channel_field(index, CR_CHANNEL) == 0,
            Op::Write { reg: Reg::DacCr, .. } => false,
            _ => true,
        } by {
            assert(prefix[k] == ops[k]);
        }
        lemma_stays_in_channel_preserves_other(prefix, index, x);
        let y = reg_after(Reg::DacCr, prefix, x);
        let c = channel_field(index, CR_CHANNEL);
        let last = ops[ops.len() - 1];
        if let Op::Modify { reg: Reg::DacCr, mask, value } = last {
            assert(mask & !c == 0 ==> ((y & !mask) | (value & mask)) & !c == y & !c) by (bit_vector);
        }
    }
}

proof fn lemma_mask_in_channel(index: usize, bits: u32)
    requires
        index < 2,
        bits & !CR_CHANNEL == 0,
    ensures
        channel_field(index, bits) & !channel_field(index, CR_CHANNEL) == 0,
{
    lemma_channel_field_shift(index, bits);
    lemma_channel_field_shift(index, CR_CHANNEL);
    let sh = channel_shift(index);
    assert((sh == 0 || sh == 16) && bits & !0x3fffu32 == 0 ==> (bits << sh) & !(0x3fffu32 << sh) == 0)
        by (bit_vector);
}

/// Law: the two DAC channels are independent: every program a channel
/// handle emits (creation, enabling, trigger changes, DMA start and stop,
/// release) changes only that channel's half of `CR`.
pub proof fn lemma_channel_programs_independent(
    index: usize,
    enabled: bool,
    cr: u32,
    trigger: Option<Trigger>,
    len: u16,
    circular: bool,
)
    requires
        index < 2,
    ensures
        stays_in_channel(init_ops(index), index),
        stays_in_channel(enable_ops(index, enabled), index),
        stays_in_channel(trigger_ops(index, cr, trigger), index),
        stays_in_channel(dma_start_ops::<u8>(index, len, circular), index),
        stays_in_channel(dma_start_ops::<u12r>(index, len, circular), index),
        stays_in_channel(dma_start_ops::<u12l>(index, len, circular), index),
        stays_in_channel(
            seq![Op::Modify { reg: Reg::DacCr, mask: channel_field(index, CR_DMAEN), value: 0 }],
            index,
        ),
        stays_in_channel(
            seq![Op::Modify { reg: Reg::DacCr, mask: channel_field(index, CR_DMAEN | CR_EN), value: 0 }],
            index,
        ),
{
    assert((CR_EN | CR_BOFF | CR_TEN | CR_WAVE | CR_DMAEN | CR_DMAUDRIE) & !CR_CHANNEL == 0 && CR_EN
        & !CR_CHANNEL == 0 && CR_TEN & !CR_CHANNEL == 0 && (CR_TSEL | CR_TEN) & !CR_CHANNEL == 0 && (CR_EN
        | CR_DMAEN) & !CR_CHANNEL == 0 && CR_DMAEN & !CR_CHANNEL == 0 && (CR_DMAEN | CR_EN) & !CR_CHANNEL
        == 0) by (bit_vector);
    lemma_mask_in_channel(index, CR_EN | CR_BOFF | CR_TEN | CR_WAVE | CR_DMAEN | CR_DMAUDRIE);
    lemma_mask_in_channel(index, CR_EN);
    lemma_mask_in_channel(index, CR_TEN);
    lemma_mask_in_channel(index, CR_TSEL | CR_TEN);
    lemma_mask_in_channel(index, CR_EN | CR_DMAEN);
    lemma_mask_in_channel(index, CR_DMAEN);
    lemma_mask_in_channel(index, CR_DMAEN | CR_EN);
    let init = init_ops(index);
    assert forall|k: int| 0 <= k < init.len() implies match #[trigger] init[k] {
        Op::Modify { reg: Reg::DacCr, mask, .. } => mask & !channel_field(index, CR_CHANNEL) == 0,
        Op::Write { reg: Reg::DacCr, .. } => false,
        _ => true,
    } by {
        assert(k == 0 || k == 1 || k == 2 || k == 3);
    }
    let t = trigger_ops(index, cr, trigger);
    assert forall|k: int| 0 <= k < t.len() implies match #[trigger] t[k] {
        Op::Modify { reg: Reg::DacCr, mask, .. } => mask & !channel_field(index, CR_CHANNEL) == 0,
        Op::Write { reg: Reg::DacCr, .. } => false,
        _ => true,
    } by {
        assert(k == 0 || k == 1 || k == 2 || k == 3 || k == 4);
    }
}

/// The 12-bit value a channel's data holding register takes when `value` is
/// stored into `reg`, one of its three views: right-aligned 12 bits,
/// left-aligned 12 bits (bits 15:4), or 8 bits filling bits 11:4.
pub open spec fn holding_data(reg: Reg, value: u32) -> u32 {
    match reg {
        Reg::DacDhr12r(_) => value & 0x0fff,
        Reg::DacDhr12l(_) => (value >> 4u32) & 0x0fff,
        Reg::DacDhr8r(_) => (value & 0xff) << 4u32,
        _ => 0,
    }
}

/// Whether `reg` is one of the holding registers of channel `index`.
pub open spec fn is_holding_register(reg: Reg, index: usize) -> bool {
    ||| reg == Reg::DacDhr12r(index)
    ||| reg == Reg::DacDhr12l(index)
    ||| reg == Reg::DacDhr8r(index)
}

/// The value of the output register of channel `index` once `op` has been
/// performed and one bus clock cycle has passed, when it held `dor` before
/// and `CR` holds `cr`. With triggering off (`CR.TEN` clear) a store into
/// one of the channel's holding registers is transferred to the output
/// register; with triggering on, the output waits for the trigger and keeps
/// its value.
pub open spec fn dor_after(index: usize, cr: u32, op: Op, dor: u32) -> u32 {
    match op {
        Op::Write { reg, value } => if is_holding_register(reg, index) && cr & channel_field(
            index,
            CR_TEN,
        ) == 0 {
            holding_data(reg, value)
        } else {
            dor
        },
        _ => dor,
    }
}

/// Law: a DMA transfer of samples of each representation feeds a holding
/// register of the same channel that decodes the sample as that
/// representation means it: a right-aligned sample by its bits 11:0, a
/// left-aligned one by its bits 15:4, an 8-bit one as bits 11:4. It is the
/// register a single [`DacChannel::set`] of that representation writes.
pub proof fn lemma_dma_register_decodes(index: usize, r: u12r, l: u12l, b: u8)
    requires
        index < 2,
    ensures
        is_holding_register(<u12r as Word>::dma_register(index), index),
        is_holding_register(<u12l as Word>::dma_register(index), index),
        is_holding_register(<u8 as Word>::dma_register(index), index),
        holding_data(<u12r as Word>::dma_register(index), r.0 as u32) == (r.0 as u32) & 0x0fff,
        holding_data(<u12l as Word>::dma_register(index), l.0 as u32) == ((l.0 as u32) >> 4u32) & 0x0fff,
        holding_data(<u8 as Word>::dma_register(index), b as u32) == (b as u32) << 4u32,
        <u12r as Word>::single_write(index, r) matches Op::Write { reg, .. } && reg == <u12r as Word>::dma_register(index),
        <u12l as Word>::single_write(index, l) matches Op::Write { reg, .. } && reg == <u12l as Word>::dma_register(index),
        <u8 as Word>::single_write(index, b) matches Op::Write { reg, .. } && reg == <u8 as Word>::dma_register(index),
{
    assert(((b as u32) & 0xff) << 4u32 == (b as u32) << 4u32) by (bit_vector);
}

/// Law: with triggering off, the sample written by [`DacChannel::set`]
/// reaches the channel's output, and [`DacChannel::read`] (which returns
/// `dor & 0x0fff`) gives back its 12-bit value, whichever representation
/// wrote it; with triggering on, the output keeps its value until the
/// trigger. With [`lemma_alignments_hold_same_sample`], a sample made by
/// `u12r::new(v)` or `u12l::new(v)` reads back as `v % 4096`.
pub proof fn lemma_output_follows_set(index: usize, cr: u32, dor: u32, r: u12r, l: u12l, b: u8)
    requires
        index < 2,
    ensures
        cr & channel_field(index, CR_TEN) == 0 ==> {
            &&& dor_after(index, cr, <u12r as Word>::single_write(index, r), dor) & 0x0fff
                == <u12r as Word>::held_sample(r)
            &&& dor_after(index, cr, <u12l as Word>::single_write(index, l), dor) & 0x0fff
                == <u12l as Word>::held_sample(l)
            &&& dor_after(index, cr, <u8 as Word>::single_write(index, b), dor) & 0x0fff
                == <u8 as Word>::held_sample(b)
        },
        cr & channel_field(index, CR_TEN) != 0 ==> {
            &&& dor_after(index, cr, <u12r as Word>::single_write(index, r), dor) == dor
            &&& dor_after(index, cr, <u12l as Word>::single_write(index, l), dor) == dor
            &&& dor_after(index, cr, <u8 as Word>::single_write(index, b), dor) == dor
        },
        <u12r as Word>::held_sample(r) <= 0x0fff,
        <u12l as Word>::held_sample(l) <= 0x0fff,
        <u8 as Word>::held_sample(b) <= 0x0fff,
{
    let rv = r.0;
    let lv = l.0;
    assert(((rv & 0x0fff) as u32) & 0x0fff & 0x0fff == ((rv & 0x0fff) as u32) && ((rv & 0x0fff) as u32)
        <= 0x0fff) by (bit_vector);
    assert((((((lv & 0xfff0) as u32) >> 4u32) & 0x0fff) & 0x0fff) == (((lv & 0xfff0) as u32) >> 4u32) && (((lv
        & 0xfff0) as u32) >> 4u32) <= 0x0fff) by (bit_vector);
    assert(((((b as u32) & 0xff) << 4u32) & 0x0fff) == ((b as u32) << 4u32) && ((b as u32) << 4u32) <= 0x0fff)
        by (bit_vector);
}

} // verus!

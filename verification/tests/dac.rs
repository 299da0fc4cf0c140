use py32_hal::bus::{Op, Peripheral, Reg};
use py32_hal::gpio::{Port, PinId, PA4, PA5};
use py32_hal::dac::{Ch1, Ch2, Dac, DacChannel, DacState, Trigger, u12l, u12r};

/// Applies the `CR` stores of a program to `cr`, checking after each step
/// that a channel's trigger fields never change while the channel is
/// enabled before and after the step.
fn run_cr_checked(mut cr: u32, ops: &[Op], check: bool) -> u32 {
    for op in ops {
        if let Op::Modify { reg: Reg::DacCr, mask, value } = *op {
            let next = (cr & !mask) | (value & mask);
            for shift in [0u32, 16] {
                let trig = 0x3c << shift;
                let en = 1 << shift;
                if check && next & trig != cr & trig {
                    assert_eq!(cr & en, 0);
                    assert_eq!(next & en, 0);
                }
            }
            cr = next;
        }
    }
    cr
}

fn run_cr(cr: u32, ops: &[Op]) -> u32 {
    run_cr_checked(cr, ops, false)
}

#[test]
fn sample_constructors() {
    assert_eq!(u12r::new(0x0ABC), u12r(0x0ABC));
    assert_eq!(u12r::new(0xFFFF), u12r(0x0FFF));
    assert_eq!(u12l::new(0x0ABC), u12l(0xABC0));
    assert_eq!(u12l::new(0x1ABC), u12l(0xABC0));
    for v in [0u16, 1, 1024, 4095, 4096, 0xFFFF] {
        assert_eq!(u12l::new(v).0 >> 4, u12r::new(v).0);
    }
}

#[test]
fn blocking_channel_program() {
    let mut state = DacState::new();
    let mut ops = Vec::new();
    let ch = DacChannel::new_blocking::<Ch2, _>(&mut state, PA5, &mut ops);
    assert!(!state.is_free());
    assert_eq!(
        ops,
        vec![
            Op::SetAnalog { pin: PinId { port: Port::A, number: 5 } },
            Op::EnableClock { periph: Peripheral::Dac },
            Op::Modify { reg: Reg::DacCr, mask: 0x30c7 << 16, value: 0 },
            Op::EnterCritical,
            Op::Modify { reg: Reg::DacCr, mask: 1 << 16, value: 1 << 16 },
            Op::ExitCritical,
        ]
    );
    assert_eq!(ch.output_register(), Reg::DacDor(1));
    let cr = run_cr(0xffff_ffff, &ops);
    assert_eq!(cr, 0xcf39_ffff);
}

#[test]
fn enable_and_disable() {
    let mut state = DacState::new();
    let mut ops = Vec::new();
    let mut ch = DacChannel::new_blocking::<Ch1, _>(&mut state, PA4, &mut ops);
    let mut ops = Vec::new();
    ch.disable(&mut ops);
    assert_eq!(run_cr(0xffff_ffff, &ops), 0xffff_fffe);
    let mut ops = Vec::new();
    ch.enable(&mut ops);
    assert_eq!(run_cr(0, &ops), 1);
    let mut ops = Vec::new();
    ch.set_enable(&mut ops, false);
    assert_eq!(ops[1], Op::Modify { reg: Reg::DacCr, mask: 1, value: 0 });
}

#[test]
fn trigger_change_keeps_enable_state() {
    let mut state = DacState::new();
    let mut ops = Vec::new();
    let mut ch = DacChannel::new_blocking::<Ch2, _>(&mut state, PA5, &mut ops);
    let cr = run_cr(0, &ops);
    let mut ops = Vec::new();
    ch.set_trigger(&mut ops, cr, Some(Trigger::Tim2));
    let after = run_cr_checked(cr, &ops, true);
    assert_eq!(after, (1 << 16) | (4 << 16) | ((4 << 3) << 16));
    // Disabled channel stays disabled; the other channel's half is untouched.
    let mut ops = Vec::new();
    ch.set_trigger(&mut ops, 0x0000_1234, Some(Trigger::Software));
    let after = run_cr_checked(0x0000_1234 | (1 << 16), &ops, true);
    assert_eq!(after, 0x0000_1234 | (4 << 16) | ((7 << 3) << 16));
    // Removing the trigger only clears TEN.
    let mut ops = Vec::new();
    ch.set_trigger(&mut ops, after, None);
    assert_eq!(run_cr_checked(after, &ops, true), 0x0000_1234 | ((7 << 3) << 16));
    assert_eq!(ops.first(), Some(&Op::EnterCritical));
    assert_eq!(ops.last(), Some(&Op::ExitCritical));
}

#[test]
fn tsel_codes() {
    let codes = [
        (Trigger::Tim6, 0u32),
        (Trigger::Tim3, 1),
        (Trigger::Tim7, 2),
        (Trigger::Tim15, 3),
        (Trigger::Tim2, 4),
        (Trigger::Exti9, 6),
        (Trigger::Software, 7),
    ];
    for (t, code) in codes {
        let mut state = DacState::new();
        let mut ops = Vec::new();
        let mut ch = DacChannel::new_blocking::<Ch1, _>(&mut state, PA4, &mut ops);
        let mut ops = Vec::new();
        ch.set_trigger(&mut ops, 1, Some(t));
        assert_eq!(ops[2], Op::Modify { reg: Reg::DacCr, mask: 0x3c, value: (code << 3) | 4 });
    }
}

#[test]
fn software_trigger_and_samples() {
    let mut state = DacState::new();
    let mut ops = Vec::new();
    let mut ch = DacChannel::new_blocking::<Ch2, _>(&mut state, PA5, &mut ops);
    let mut ops = Vec::new();
    ch.set_trigger(&mut ops, 0, Some(Trigger::Software));
    let mut ops = Vec::new();
    ch.trigger(&mut ops);
    ch.set(&mut ops, u12r::new(0x1FFF));
    ch.set(&mut ops, u12l::new(0x0123));
    ch.set(&mut ops, 0xABu8);
    assert_eq!(
        ops,
        vec![
            Op::Write { reg: Reg::DacSwtrigr, value: 2 },
            Op::Write { reg: Reg::DacDhr12r(1), value: 0x0FFF },
            Op::Write { reg: Reg::DacDhr12l(1), value: 0x1230 },
            Op::Write { reg: Reg::DacDhr8r(1), value: 0xAB },
        ]
    );
    assert_eq!(ch.read(0xFFFF_F123), 0x0123);
}

#[test]
fn dual_writes() {
    let mut state = DacState::new();
    let mut ops = Vec::new();
    let mut dac = Dac::new_blocking(&mut state, PA4, PA5, &mut ops);
    assert_eq!(ops.len(), 11);
    assert_eq!(ops[0], Op::SetAnalog { pin: PinId { port: Port::A, number: 4 } });
    assert_eq!(ops[1], Op::SetAnalog { pin: PinId { port: Port::A, number: 5 } });
    let mut ops = Vec::new();
    dac.set(&mut ops, (u12r::new(1024), u12r::new(3072)));
    dac.set(&mut ops, (u12l::new(1), u12l::new(2)));
    dac.set(&mut ops, (0x12u8, 0x34u8));
    assert_eq!(
        ops,
        vec![
            Op::Write { reg: Reg::DacDhr12rd, value: (3072 << 16) | 1024 },
            Op::Write { reg: Reg::DacDhr12ld, value: (0x20 << 16) | 0x10 },
            Op::Write { reg: Reg::DacDhr8rd, value: 0x3412 },
        ]
    );
}

#[test]
fn dma_program() {
    let mut state = DacState::new();
    let mut ops = Vec::new();
    let mut ch = DacChannel::new_triggered::<Ch1, _>(&mut state, Trigger::Tim6, PA4, &mut ops);
    assert!(ch.dma_transfer_allowed(32));
    assert!(!ch.dma_transfer_allowed(0));
    assert!(!ch.dma_transfer_allowed(65536));
    let mut ops = Vec::new();
    ch.write_circular::<u12r>(&mut ops, 32);
    assert_eq!(
        ops,
        vec![
            Op::Write { reg: Reg::DacSr, value: 0x2000 },
            Op::StartDma {
                target: Reg::DacDhr12r(0),
                memory_word_bytes: 2,
                len: 32,
                circular: true,
                complete_transfer_irq: false,
            },
            Op::Modify { reg: Reg::DacCr, mask: 0x1001, value: 0x1001 },
        ]
    );
    let mut ops = Vec::new();
    ch.write::<u8>(&mut ops, 65535);
    assert_eq!(
        ops[1],
        Op::StartDma {
            target: Reg::DacDhr8r(0),
            memory_word_bytes: 1,
            len: 65535,
            circular: false,
            complete_transfer_irq: true,
        }
    );
    let mut ops = Vec::new();
    ch.stop_dma(&mut ops);
    assert_eq!(ops, vec![Op::Modify { reg: Reg::DacCr, mask: 0x1000, value: 0 }]);
}

#[test]
fn untriggered_channel_refuses_dma() {
    let mut state = DacState::new();
    let mut ops = Vec::new();
    let mut ch = DacChannel::new::<Ch2, _>(&mut state, PA5, &mut ops);
    assert!(!ch.dma_transfer_allowed(10));
    let mut ops = Vec::new();
    ch.set_trigger(&mut ops, 1 << 16, Some(Trigger::Software));
    assert!(!ch.dma_transfer_allowed(10));
    ch.set_trigger(&mut ops, 1 << 16, Some(Trigger::Exti9));
    assert!(ch.dma_transfer_allowed(10));
}

#[test]
fn last_release_disables_clock() {
    let mut state = DacState::new();
    assert!(state.is_free());
    let mut ops = Vec::new();
    let dac = Dac::new_triggered(&mut state, Trigger::Tim6, Trigger::Tim7, PA4, PA5, &mut ops);
    assert_eq!(ops.len(), 2 + 1 + 4 + 4 + 5 + 5);
    let (ch1, ch2) = dac.split();
    let mut ops = Vec::new();
    ch1.release(&mut state, &mut ops);
    assert_eq!(ops, vec![Op::Modify { reg: Reg::DacCr, mask: 0x1001, value: 0 }]);
    assert!(!state.is_free());
    let mut ops = Vec::new();
    ch2.release(&mut state, &mut ops);
    assert_eq!(
        ops,
        vec![
            Op::Modify { reg: Reg::DacCr, mask: 0x1001 << 16, value: 0 },
            Op::DisableClock { periph: Peripheral::Dac },
        ]
    );
    assert!(state.is_free());
}

#[test]
fn borrowed_channels() {
    let mut state = DacState::new();
    let mut ops = Vec::new();
    let mut dac = Dac::new(&mut state, PA4, PA5, &mut ops);
    let mut ops = Vec::new();
    dac.ch2().set(&mut ops, 0x10u8);
    dac.ch1().set(&mut ops, 0x20u8);
    assert_eq!(
        ops,
        vec![
            Op::Write { reg: Reg::DacDhr8r(1), value: 0x10 },
            Op::Write { reg: Reg::DacDhr8r(0), value: 0x20 },
        ]
    );
    assert_eq!(dac.ch1().output_register(), Reg::DacDor(0));
}

#[test]
fn channel_programs_leave_other_channel_alone() {
    let mut state = DacState::new();
    let mut ops = Vec::new();
    let mut ch = DacChannel::new::<Ch1, _>(&mut state, PA4, &mut ops);
    ch.disable(&mut ops);
    ch.enable(&mut ops);
    ch.set_trigger(&mut ops, 1, Some(Trigger::Tim15));
    ch.write::<u12l>(&mut ops, 4);
    ch.stop_dma(&mut ops);
    ch.release(&mut state, &mut ops);
    let before = 0xABCD_0000u32;
    let after = run_cr(before, &ops);
    assert_eq!(after & 0xffff_0000, before & 0xffff_0000);
    assert_eq!(after & 0x1001, 0);
}

/// The output register of channel `index` after a holding-register store,
/// with triggering off.
fn output_after(index: usize, op: &Op) -> Option<u32> {
    match *op {
        Op::Write { reg: Reg::DacDhr12r(i), value } if i == index => Some(value & 0x0fff),
        Op::Write { reg: Reg::DacDhr12l(i), value } if i == index => Some((value >> 4) & 0x0fff),
        Op::Write { reg: Reg::DacDhr8r(i), value } if i == index => Some((value & 0xff) << 4),
        _ => None,
    }
}

#[test]
fn output_follows_set_without_trigger() {
    let mut state = DacState::new();
    let mut ops = Vec::new();
    let mut ch = DacChannel::new_blocking::<Ch2, _>(&mut state, PA5, &mut ops);
    for v in [0u16, 1, 2048, 4095, 0xF123] {
        let mut ops = Vec::new();
        ch.set(&mut ops, u12r::new(v));
        ch.set(&mut ops, u12l::new(v));
        for op in &ops {
            let dor = output_after(1, op).unwrap();
            assert_eq!(ch.read(dor), v % 4096);
        }
    }
    let mut ops = Vec::new();
    ch.set(&mut ops, 0xA5u8);
    assert_eq!(ch.read(output_after(1, &ops[0]).unwrap()), 0xA50);
}

#[test]
fn split_gives_channels_in_order() {
    let mut state = DacState::new();
    let mut ops = Vec::new();
    let mut dac = Dac::new_blocking(&mut state, PA4, PA5, &mut ops);
    assert_eq!(dac.ch1().index(), 0);
    assert_eq!(dac.ch2().index(), 1);
    let (a, b) = dac.split();
    assert_eq!(a.index(), 0);
    assert_eq!(b.index(), 1);
    assert_eq!(a.output_register(), Reg::DacDor(0));
    assert_eq!(b.output_register(), Reg::DacDor(1));
}

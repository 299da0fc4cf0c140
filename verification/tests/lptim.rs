use py32_hal::bus::{Irq, Op, Peripheral, Reg};
use py32_hal::lptim::{Config, Lptim, Mode, Prescaler};

#[test]
fn lptim_default_config() {
    let c = Config::default();
    assert_eq!(c.prescaler, Prescaler::DIV1);
    assert_eq!(c.mode, Mode::Continuous);
    assert!(!c.preload);
    assert!(c.interrupt);
}

#[test]
fn new_program() {
    let mut ops = Vec::new();
    let _t = Lptim::new(
        Config { prescaler: Prescaler::DIV16, mode: Mode::Single, preload: true, interrupt: false },
        32_768,
        &mut ops,
    );
    assert_eq!(
        ops,
        vec![
            Op::EnableClock { periph: Peripheral::Lptim1 },
            Op::Write { reg: Reg::LptimCfgr, value: (4 << 9) | 0x0040_0000 },
            Op::Write { reg: Reg::LptimIer, value: 0 },
            Op::Modify { reg: Reg::LptimCr, mask: 1, value: 1 },
            Op::EnableIrq { irq: Irq::Tim6Lptim1Dac },
        ]
    );
    let mut ops = Vec::new();
    let _t = Lptim::new(Config::default(), 8_000_000, &mut ops);
    assert_eq!(ops[1], Op::Write { reg: Reg::LptimCfgr, value: 0 });
    assert_eq!(ops[2], Op::Write { reg: Reg::LptimIer, value: 2 });
    let mut ops = Vec::new();
    let _t = Lptim::new(Config { prescaler: Prescaler::DIV128, ..Config::default() }, 1, &mut ops);
    assert_eq!(ops[1], Op::Write { reg: Reg::LptimCfgr, value: 7 << 9 });
}

#[test]
fn start_per_mode() {
    let mut ops = Vec::new();
    let mut single = Lptim::new(Config { mode: Mode::Single, ..Config::default() }, 1, &mut ops);
    let mut cont = Lptim::new(Config::default(), 1, &mut ops);
    let mut ops = Vec::new();
    single.start(&mut ops);
    cont.start(&mut ops);
    cont.stop(&mut ops);
    assert_eq!(
        ops,
        vec![
            Op::Modify { reg: Reg::LptimCr, mask: 3, value: 3 },
            Op::Modify { reg: Reg::LptimCr, mask: 5, value: 5 },
            Op::Modify { reg: Reg::LptimCr, mask: 1, value: 0 },
        ]
    );
}

#[test]
fn autoreload_round_trip() {
    let mut ops = Vec::new();
    let mut t = Lptim::new(Config::default(), 1, &mut ops);
    let mut ops = Vec::new();
    t.set_autoreload(&mut ops, 32767);
    assert_eq!(
        ops,
        vec![
            Op::Write { reg: Reg::LptimArr, value: 32767 },
            Op::WaitSet { reg: Reg::LptimIsr, mask: 0x10 },
            Op::Write { reg: Reg::LptimIcr, value: 0x10 },
        ]
    );
    if let Op::Write { value, .. } = ops[0] {
        assert_eq!(t.autoreload(value), 32767);
    }
    assert_eq!(t.autoreload(0xABCD_1234), 0x1234);
}

#[test]
fn counter_needs_two_equal_reads() {
    let mut ops = Vec::new();
    let t = Lptim::new(Config::default(), 1, &mut ops);
    assert_eq!(t.counter(5, 5), Some(5));
    assert_eq!(t.counter(5, 6), None);
    assert_eq!(t.counter(0x1_0007, 0x7), Some(7));
}

#[test]
fn match_flag_and_reset() {
    let mut ops = Vec::new();
    let mut t = Lptim::new(Config::default(), 1, &mut ops);
    assert!(t.match_flag(0x2));
    assert!(!t.match_flag(0x10));
    let mut ops = Vec::new();
    assert!(!t.wait_match(&mut ops, 0x10));
    assert!(ops.is_empty());
    assert!(t.wait_match(&mut ops, 0x12));
    t.clear_match_flag(&mut ops);
    t.reset_counter(&mut ops);
    assert_eq!(
        ops,
        vec![
            Op::Write { reg: Reg::LptimIcr, value: 2 },
            Op::Write { reg: Reg::LptimIcr, value: 2 },
            Op::Modify { reg: Reg::LptimCr, mask: 8, value: 8 },
            Op::WaitClear { reg: Reg::LptimCr, mask: 8 },
        ]
    );
}

/// `ISR` after a program: waits leave their bits set, ones written to `ICR`
/// clear the matching flags.
fn isr_after(mut isr: u32, ops: &[Op]) -> u32 {
    for op in ops {
        match *op {
            Op::WaitSet { reg: Reg::LptimIsr, mask } => isr |= mask,
            Op::Write { reg: Reg::LptimIcr, value } => isr &= !value,
            _ => {}
        }
    }
    isr
}

#[test]
fn flags_cleared_after_programs() {
    let mut ops = Vec::new();
    let mut t = Lptim::new(Config::default(), 1, &mut ops);
    let mut ops = Vec::new();
    t.set_autoreload(&mut ops, 100);
    assert_eq!(isr_after(0x02, &ops), 0x02);
    assert_eq!(isr_after(0x12, &ops) & 0x10, 0);
    let mut ops = Vec::new();
    t.clear_match_flag(&mut ops);
    assert_eq!(isr_after(0x12, &ops), 0x10);
}

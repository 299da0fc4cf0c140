use py32_hal::bus::{Irq, Op, Peripheral, Reg};
use py32_hal::rtc::{split_prescaler, Rtc, RtcClockSource, RtcConfig, RtcInterrupt};
use std::collections::HashMap;

/// Runs a program on a register file in which only the program writes.
fn run(regs: &mut HashMap<Reg, u32>, ops: &[Op]) {
    for op in ops {
        match *op {
            Op::Write { reg, value } => {
                regs.insert(reg, value);
            }
            Op::Modify { reg, mask, value } => {
                let old = *regs.get(&reg).unwrap_or(&0);
                regs.insert(reg, (old & !mask) | (value & mask));
            }
            _ => {}
        }
    }
}

#[test]
fn split_prescaler_bounds() {
    assert_eq!(split_prescaler(0), (0, 0));
    assert_eq!(split_prescaler(1), (0, 1));
    assert_eq!(split_prescaler(0xFFFF), (0, 0xFFFF));
    assert_eq!(split_prescaler(0x1_0000), (1, 0));
    assert_eq!(split_prescaler(0xF_FFFF), (0xF, 0xFFFF));
}

#[test]
fn prescaler_halves_rejoin() {
    for prl in [1u32, 32767, 0x1_2345, 0xF_FFFF] {
        let (h, l) = split_prescaler(prl);
        assert!(h < 16);
        assert_eq!(((h as u32) << 16) | l as u32, prl);
    }
}

#[test]
fn rtc_default_config() {
    let c = RtcConfig::default();
    assert_eq!(c.clock_source, RtcClockSource::Lsi);
    assert_eq!(c.prescaler, 32767);
}

#[test]
fn new_with_lsi_program() {
    let mut ops = Vec::new();
    let _rtc = Rtc::new(
        RtcConfig { clock_source: RtcClockSource::Lsi, prescaler: 32767 },
        &mut ops,
    );
    assert_eq!(
        ops,
        vec![
            Op::EnableClock { periph: Peripheral::Pwr },
            Op::Modify { reg: Reg::PwrCr1, mask: 0x100, value: 0x100 },
            Op::Modify { reg: Reg::RccBdcr, mask: 0x1_0000, value: 0x1_0000 },
            Op::Modify { reg: Reg::RccBdcr, mask: 0x1_0000, value: 0 },
            Op::Modify { reg: Reg::RccCsr, mask: 1, value: 1 },
            Op::WaitSet { reg: Reg::RccCsr, mask: 2 },
            Op::Modify { reg: Reg::RccBdcr, mask: 0x8300, value: 0x8200 },
            Op::WaitSet { reg: Reg::RtcCrl, mask: 0x08 },
            Op::WaitSet { reg: Reg::RtcCrl, mask: 0x20 },
            Op::Modify { reg: Reg::RtcCrl, mask: 0x10, value: 0x10 },
            Op::Write { reg: Reg::RtcPrlh, value: 0 },
            Op::Write { reg: Reg::RtcPrll, value: 32767 },
            Op::Modify { reg: Reg::RtcCrl, mask: 0x10, value: 0 },
            Op::WaitSet { reg: Reg::RtcCrl, mask: 0x20 },
            Op::EnableIrq { irq: Irq::Rtc },
        ]
    );
}

#[test]
fn new_with_lse_and_hse_sources() {
    let mut ops = Vec::new();
    let _rtc = Rtc::new(RtcConfig { clock_source: RtcClockSource::Lse, prescaler: 0xF_FFFF }, &mut ops);
    assert_eq!(ops[4], Op::Modify { reg: Reg::RccBdcr, mask: 1, value: 1 });
    assert_eq!(ops[5], Op::WaitSet { reg: Reg::RccBdcr, mask: 2 });
    assert_eq!(ops[6], Op::Modify { reg: Reg::RccBdcr, mask: 0x8300, value: 0x8100 });
    assert_eq!(ops[10], Op::Write { reg: Reg::RtcPrlh, value: 0xF });
    assert_eq!(ops[11], Op::Write { reg: Reg::RtcPrll, value: 0xFFFF });

    let mut ops = Vec::new();
    let _rtc = Rtc::new(RtcConfig { clock_source: RtcClockSource::HseDiv128, prescaler: 1 }, &mut ops);
    assert_eq!(ops.len(), 15);
    assert_eq!(ops[4], Op::Modify { reg: Reg::RccCr, mask: 0x1_0000, value: 0x1_0000 });
    assert_eq!(ops[5], Op::WaitSet { reg: Reg::RccCr, mask: 0x2_0000 });
    assert_eq!(ops[6], Op::Modify { reg: Reg::RccBdcr, mask: 0x8300, value: 0x8300 });
}

#[test]
fn counter_round_trip() {
    let mut ops = Vec::new();
    let mut rtc = Rtc::new(RtcConfig::default(), &mut ops);
    let mut regs = HashMap::new();
    regs.insert(Reg::RtcCntl, 0xAAAA);
    regs.insert(Reg::RtcCnth, 0x5555);
    for c in [0u32, 5, 0x1_0000, 0xDEAD_BEEF, u32::MAX] {
        let mut ops = Vec::new();
        rtc.set_counter(&mut ops, c);
        run(&mut regs, &ops);
        assert_eq!(rtc.now(regs[&Reg::RtcCntl], regs[&Reg::RtcCnth]), c);
    }
}

#[test]
fn alarm_round_trip() {
    let mut ops = Vec::new();
    let mut rtc = Rtc::new(RtcConfig::default(), &mut ops);
    let mut regs = HashMap::new();
    let mut ops = Vec::new();
    rtc.set_alarm(&mut ops, 0x0001_0005);
    run(&mut regs, &ops);
    assert_eq!(rtc.alarm(regs[&Reg::RtcAlrl], regs[&Reg::RtcAlrh]), 0x0001_0005);
    assert_eq!(regs[&Reg::RtcAlrh], 1);
    assert_eq!(regs[&Reg::RtcAlrl], 5);
}

#[test]
fn config_writes_only_in_config_mode() {
    let mut ops = Vec::new();
    let mut rtc = Rtc::new(RtcConfig::default(), &mut ops);
    rtc.set_counter(&mut ops, 7);
    rtc.set_alarm(&mut ops, 9);
    let mut regs = HashMap::new();
    for op in &ops {
        if let Op::Write { reg, .. } = op {
            if matches!(
                reg,
                Reg::RtcPrlh | Reg::RtcPrll | Reg::RtcCnth | Reg::RtcCntl | Reg::RtcAlrh | Reg::RtcAlrl
            ) {
                assert_eq!(regs.get(&Reg::RtcCrl).copied().unwrap_or(0) & 0x10, 0x10);
            }
        }
        run(&mut regs, std::slice::from_ref(op));
    }
    assert_eq!(regs[&Reg::RtcCrl] & 0x10, 0);
}

#[test]
fn now_joins_halves() {
    let mut ops = Vec::new();
    let rtc = Rtc::new(RtcConfig::default(), &mut ops);
    assert_eq!(rtc.now(0x1234, 0xABCD), 0xABCD_1234);
    assert_eq!(rtc.now(0xFFFF_0001, 0xFFFF_0002), 0x0002_0001);
}

#[test]
fn interrupt_enable_and_disable() {
    let mut ops = Vec::new();
    let mut rtc = Rtc::new(RtcConfig::default(), &mut ops);
    let mut ops = Vec::new();
    rtc.enable_interrupt(&mut ops, RtcInterrupt::Second);
    rtc.enable_interrupt(&mut ops, RtcInterrupt::Alarm);
    rtc.disable_interrupt(&mut ops, RtcInterrupt::Second);
    rtc.enable_interrupt(&mut ops, RtcInterrupt::Overflow);
    assert_eq!(ops[0], Op::WaitSet { reg: Reg::RtcCrl, mask: 0x20 });
    assert_eq!(ops[1], Op::Modify { reg: Reg::RtcCrh, mask: 1, value: 1 });
    assert_eq!(ops[5], Op::Modify { reg: Reg::RtcCrh, mask: 1, value: 0 });
    let mut regs = HashMap::new();
    run(&mut regs, &ops);
    assert_eq!(regs[&Reg::RtcCrh], 0x06);
}

#[test]
fn flags_and_polls() {
    let mut ops = Vec::new();
    let mut rtc = Rtc::new(RtcConfig::default(), &mut ops);
    assert!(rtc.interrupt_flag(0x01, RtcInterrupt::Second));
    assert!(!rtc.interrupt_flag(0x01, RtcInterrupt::Alarm));
    assert!(rtc.interrupt_flag(0x04, RtcInterrupt::Overflow));
    let mut ops = Vec::new();
    assert!(!rtc.wait_second(&mut ops, 0x20));
    assert!(ops.is_empty());
    assert!(rtc.wait_second(&mut ops, 0x21));
    assert_eq!(
        ops,
        vec![
            Op::WaitSet { reg: Reg::RtcCrl, mask: 0x20 },
            Op::Modify { reg: Reg::RtcCrl, mask: 1, value: 0 },
        ]
    );
    let mut ops = Vec::new();
    assert!(!rtc.wait_alarm(&mut ops, 0x01));
    assert!(rtc.wait_alarm(&mut ops, 0x02));
    assert_eq!(
        ops,
        vec![
            Op::WaitSet { reg: Reg::RtcCrl, mask: 0x20 },
            Op::Modify { reg: Reg::RtcCrl, mask: 2, value: 0 },
        ]
    );
    let mut ops = Vec::new();
    rtc.clear_interrupt_flag(&mut ops, RtcInterrupt::Alarm);
    assert_eq!(
        ops,
        vec![
            Op::WaitSet { reg: Reg::RtcCrl, mask: 0x20 },
            Op::Modify { reg: Reg::RtcCrl, mask: 2, value: 0 },
        ]
    );
}

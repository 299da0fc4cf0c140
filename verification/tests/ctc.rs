use py32_hal::bus::{Op, Peripheral, Reg};
use py32_hal::rcc::ctc::{init_ctc, ref_capture, trim_value, CtcConfig, PLL48M_FREQ};

#[test]
fn config_defaults() {
    assert!(!CtcConfig::new().sync_from_usb);
    assert_eq!(CtcConfig::default(), CtcConfig::new());
}

#[test]
fn init_without_sync() {
    let mut ops = Vec::new();
    assert_eq!(init_ctc(CtcConfig::new(), &mut ops), 48_000_000);
    assert_eq!(ops, vec![Op::EnableClock { periph: Peripheral::Ctc }]);
}

#[test]
fn init_with_usb_sync() {
    let mut ops = Vec::new();
    assert_eq!(init_ctc(CtcConfig { sync_from_usb: true }, &mut ops), PLL48M_FREQ);
    assert_eq!(
        ops,
        vec![
            Op::EnableClock { periph: Peripheral::Ctc },
            Op::Write { reg: Reg::CtcCtl1, value: (2 << 28) | (0x22 << 16) | 48_000 },
            Op::Write { reg: Reg::CtcIntc, value: 0xF },
            Op::Modify { reg: Reg::CtcCtl0, mask: 0x60, value: 0x60 },
        ]
    );
}

#[test]
fn readings() {
    assert_eq!(trim_value(64 << 8), 64);
    assert_eq!(trim_value(0x2060), 32);
    assert_eq!(trim_value(0xFFFF_FFFF), 127);
    assert_eq!(ref_capture(48_000 << 16), 48_000);
    assert_eq!(ref_capture(0x0000_FFFF), 0);
}

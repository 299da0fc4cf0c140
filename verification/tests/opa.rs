use py32_hal::bus::{Op, Peripheral, Reg};
use py32_hal::gpio::{PinId, Port, PA10, PA5, PA6, PA7, PA9, PB12, PB13, PB14};
use py32_hal::opa::{Ch1, Ch2, Ch3, Opa};

#[test]
fn enable_output_and_release() {
    let mut ops = Vec::new();
    let opa = Opa::new(&mut ops);
    assert_eq!(ops, vec![Op::EnableClock { periph: Peripheral::Opa }]);
    let mut ops = Vec::new();
    let mut amp = opa.enable::<Ch2, _, _>(PA7, PA6, &mut ops);
    amp.enable_output(PA5, &mut ops);
    amp.disable_output(&mut ops);
    assert_eq!(amp.channel(), 22);
    amp.release(&mut ops);
    opa.release(&mut ops);
    assert_eq!(
        ops,
        vec![
            Op::SetAnalog { pin: PinId { port: Port::A, number: 7 } },
            Op::SetAnalog { pin: PinId { port: Port::A, number: 6 } },
            Op::EnterCritical,
            Op::Modify { reg: Reg::OpaCr1, mask: 2, value: 2 },
            Op::ExitCritical,
            Op::SetAnalog { pin: PinId { port: Port::A, number: 5 } },
            Op::EnterCritical,
            Op::Modify { reg: Reg::OpaCr0, mask: 2, value: 2 },
            Op::ExitCritical,
            Op::EnterCritical,
            Op::Modify { reg: Reg::OpaCr0, mask: 2, value: 0 },
            Op::ExitCritical,
            Op::EnterCritical,
            Op::Modify { reg: Reg::OpaCr0, mask: 2, value: 0 },
            Op::Modify { reg: Reg::OpaCr1, mask: 2, value: 0 },
            Op::ExitCritical,
            Op::DisableClock { periph: Peripheral::Opa },
        ]
    );
}

#[test]
fn adc_channels() {
    let mut ops = Vec::new();
    let opa = Opa::new(&mut ops);
    assert_eq!(opa.enable::<Ch1, _, _>(PA9, PA10, &mut ops).channel(), 21);
    assert_eq!(opa.enable::<Ch2, _, _>(PA7, PA6, &mut ops).channel(), 22);
    assert_eq!(opa.enable::<Ch3, _, _>(PB13, PB12, &mut ops).channel(), 16);
    assert_eq!(ops[4], Op::Modify { reg: Reg::OpaCr1, mask: 1, value: 1 });
    assert_eq!(ops[14], Op::Modify { reg: Reg::OpaCr1, mask: 4, value: 4 });
}

#[test]
fn amplifiers_are_independent() {
    let mut ops = Vec::new();
    let opa = Opa::new(&mut ops);
    let mut ops = Vec::new();
    let mut a3 = opa.enable::<Ch3, _, _>(PB13, PB12, &mut ops);
    a3.enable_output(PB14, &mut ops);
    let a1 = opa.enable::<Ch1, _, _>(PA9, PA10, &mut ops);
    a1.release(&mut ops);
    let mut cr0 = 0x2u32;
    let mut cr1 = 0x2u32;
    for op in &ops {
        if let Op::Modify { reg, mask, value } = *op {
            let r = if reg == Reg::OpaCr0 { &mut cr0 } else { &mut cr1 };
            *r = (*r & !mask) | (value & mask);
        }
    }
    assert_eq!(cr0, 0x6);
    assert_eq!(cr1, 0x6);
}

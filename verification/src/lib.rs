//! Drivers for the DAC, LPTIM, OPA, CTC and RTC peripherals of the PY32F072.

pub mod bus;
pub mod dac;
pub mod gpio;
pub mod lptim;
pub mod opa;
pub mod rcc;
pub mod rtc;

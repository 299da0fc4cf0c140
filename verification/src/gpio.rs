//! The GPIO pins that carry the analog signals of the DAC and the OPA.
//!
//! A pin type is a unit struct that names one pin. Drivers take it by value
//! and put that pin in analog mode. Anyone can make a value of a pin type,
//! so holding one does not prove that nothing else uses the pin.

use vstd::prelude::*;

verus! {

/// A GPIO port.
#[derive(Clone, Copy, Debug, PartialEq, Eq, Hash, Structural)]
pub enum Port {
    A,
    B,
}

/// A GPIO pin: its port and its number in the port.
#[derive(Clone, Copy, Debug, PartialEq, Eq, Hash, Structural)]
pub struct PinId {
    pub port: Port,
    pub number: u8,
}

trait SealedPin {
}

impl SealedPin for PA4 {
}

impl SealedPin for PA5 {
}

impl SealedPin for PA6 {
}

impl SealedPin for PA7 {
}

impl SealedPin for PA8 {
}

impl SealedPin for PA9 {
}

impl SealedPin for PA10 {
}

impl SealedPin for PB12 {
}

impl SealedPin for PB13 {
}

impl SealedPin for PB14 {
}

/// A pin type, implemented by the pin types of this module only.
#[allow(private_bounds)]
pub trait Pin: SealedPin {
    /// The pin this type stands for.
    spec fn pin_id() -> PinId;

    fn id() -> (r: PinId)
        ensures
            r == Self::pin_id(),
    ;
}

/// Pin PA4.
pub struct PA4;

impl Pin for PA4 {
    open spec fn pin_id() -> PinId {
        PinId { port: Port::A, number: 4 }
    }

    fn id() -> (r: PinId) {
        PinId { port: Port::A, number: 4 }
    }
}

/// Pin PA5.
pub struct PA5;

impl Pin for PA5 {
    open spec fn pin_id() -> PinId {
        PinId { port: Port::A, number: 5 }
    }

    fn id() -> (r: PinId) {
        PinId { port: Port::A, number: 5 }
    }
}

/// Pin PA6.
pub struct PA6;

impl Pin for PA6 {
    open spec fn pin_id() -> PinId {
        PinId { port: Port::A, number: 6 }
    }

    fn id() -> (r: PinId) {
        PinId { port: Port::A, number: 6 }
    }
}

/// Pin PA7.
pub struct PA7;

impl Pin for PA7 {
    open spec fn pin_id() -> PinId {
        PinId { port: Port::A, number: 7 }
    }

    fn id() -> (r: PinId) {
        PinId { port: Port::A, number: 7 }
    }
}

/// Pin PA8.
pub struct PA8;

impl Pin for PA8 {
    open spec fn pin_id() -> PinId {
        PinId { port: Port::A, number: 8 }
    }

    fn id() -> (r: PinId) {
        PinId { port: Port::A, number: 8 }
    }
}

/// Pin PA9.
pub struct PA9;

impl Pin for PA9 {
    open spec fn pin_id() -> PinId {
        PinId { port: Port::A, number: 9 }
    }

    fn id() -> (r: PinId) {
        PinId { port: Port::A, number: 9 }
    }
}

/// Pin PA10.
pub struct PA10;

impl Pin for PA10 {
    open spec fn pin_id() -> PinId {
        PinId { port: Port::A, number: 10 }
    }

    fn id() -> (r: PinId) {
        PinId { port: Port::A, number: 10 }
    }
}

/// Pin PB12.
pub struct PB12;

impl Pin for PB12 {
    open spec fn pin_id() -> PinId {
        PinId { port: Port::B, number: 12 }
    }

    fn id() -> (r: PinId) {
        PinId { port: Port::B, number: 12 }
    }
}

/// Pin PB13.
pub struct PB13;

impl Pin for PB13 {
    open spec fn pin_id() -> PinId {
        PinId { port: Port::B, number: 13 }
    }

    fn id() -> (r: PinId) {
        PinId { port: Port::B, number: 13 }
    }
}

/// Pin PB14.
pub struct PB14;

impl Pin for PB14 {
    open spec fn pin_id() -> PinId {
        PinId { port: Port::B, number: 14 }
    }

    fn id() -> (r: PinId) {
        PinId { port: Port::B, number: 14 }
    }
}

/// Law: each pin type names its own pin: `PXn` is pin `n` of port `X`. Hence
/// the pin types name pairwise different pins.
pub proof fn lemma_pin_types_name_their_pins()
    ensures
        PA4::pin_id() == (PinId { port: Port::A, number: 4 }),
        PA5::pin_id() == (PinId { port: Port::A, number: 5 }),
        PA6::pin_id() == (PinId { port: Port::A, number: 6 }),
        PA7::pin_id() == (PinId { port: Port::A, number: 7 }),
        PA8::pin_id() == (PinId { port: Port::A, number: 8 }),
        PA9::pin_id() == (PinId { port: Port::A, number: 9 }),
        PA10::pin_id() == (PinId { port: Port::A, number: 10 }),
        PB12::pin_id() == (PinId { port: Port::B, number: 12 }),
        PB13::pin_id() == (PinId { port: Port::B, number: 13 }),
        PB14::pin_id() == (PinId { port: Port::B, number: 14 }),
{
}

} // verus!

//! Reset and clock control.

pub mod ctc;

# py32-hal drivers, verified

Drivers for the DAC, LPTIM, OPA, CTC and RTC peripherals of the PY32F072,
written in Verus.

Every driver operation appends the register accesses it needs, in order, to a
register program (`Vec<bus::Op>`): writes, read-modify-writes, polls of a
flag, clock gating, interrupt enabling, critical sections and DMA starts.
Values that the hardware produces (status flags, counters, output data) are
passed in as arguments. The contracts state the program each operation emits
exactly, and the laws in each module state what the programs do to the
registers (for example that the DAC trigger selection never changes while the
channel is enabled, or that RTC counter writes happen only in configuration
mode).

The owner count of the DAC (`dac::DacState`) must exist once for the DAC
and be passed to every constructor and release; nothing prevents making a
second one. Channel handles are released explicitly (`release`), not on drop.

Layout:

- `src/bus.rs`: registers, program steps, and the meaning of a program for a
  register (`reg_after`).
- `src/gpio.rs`: the pins that carry analog signals.
- `src/dac.rs`, `src/lptim.rs`, `src/opa.rs`, `src/rcc/ctc.rs`, `src/rtc.rs`:
  the drivers and their laws.
- `tests/`: the drivers run on concrete values.
- `app/lib.rs`: runs programs on the hardware through a `Hardware` trait,
  handles interrupts and the asynchronous waits.

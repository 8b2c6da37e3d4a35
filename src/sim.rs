//! Model of the system integration module's clock-gate registers.
use vstd::prelude::*;

verus! {

/// Clock-gate control registers SCGC4 and SCGC5.
pub struct ClockGates {
    pub scgc4: u32,
    pub scgc5: u32,
}

/// Bit of SCGC5 that gates the clock of port `port` (0 for A to 4 for E).
pub open spec fn port_gate_bit(port: u8) -> u32 {
    (9 + port) as u32
}

/// Bit of SCGC4 that gates the clock of I2C0.
pub const I2C0_GATE_BIT: u32 = 6;

/// Bit of SCGC4 that gates the clock of UART0.
pub const UART0_GATE_BIT: u32 = 10;

impl ClockGates {
    /// Power-on state: every gate closed.
    pub fn new() -> (r: ClockGates)
        ensures
            r.scgc4 == 0,
            r.scgc5 == 0,
    {
        ClockGates { scgc4: 0, scgc5: 0 }
    }

    /// Opens the clock gate of a port; every other gate keeps its state.
    pub fn enable_port(&mut self, port: u8)
        requires
            port < 5,
        ensures
            final(self).scgc5 == old(self).scgc5 | (1u32 << port_gate_bit(port)),
            final(self).scgc4 == old(self).scgc4,
    {
        let b: u32 = 9 + port as u32;
        self.scgc5 = self.scgc5 | (1u32 << b);
    }

    /// Opens a clock gate of SCGC4; every other gate keeps its state.
    pub fn enable_scgc4(&mut self, bit: u32)
        requires
            bit < 32,
        ensures
            final(self).scgc4 == old(self).scgc4 | (1u32 << bit),
            final(self).scgc5 == old(self).scgc5,
    {
        self.scgc4 = self.scgc4 | (1u32 << bit);
    }
}

} // verus!

//! Master driver for the two-wire serial bus.
//!
//! The driver never waits by itself. A write is a [`WriteTransfer`]: each call
//! of [`WriteTransfer::step`] takes the status and filter registers as read
//! from the peripheral and returns the register operations to perform before
//! the next read, until the transfer reports its outcome.
use vstd::prelude::*;
use crate::gpio::{AlternativeOD, AF5, PE24, PE25};
use crate::sim::{ClockGates, I2C0_GATE_BIT};

verus! {

/// Errors that a bus transfer reports.
#[allow(non_camel_case_types)]
#[derive(Debug, Clone, Copy, PartialEq, Eq, Structural)]
pub enum I2cError {
    OVERRUN,
    NACK,
    TIMEOUT,
    BUS,
    CRC,
    ARBITRATION,
}

/// Registers of the bus peripheral that the driver reads or writes.
#[derive(Debug, Clone, Copy, PartialEq, Eq, Structural)]
pub enum I2cReg {
    /// Own address.
    A1,
    /// Frequency divider.
    F,
    /// Control 1.
    C1,
    /// Status; ARBL and IICIF are write-one-to-clear.
    S,
    /// Data.
    D,
    /// Control 2.
    C2,
    /// Programmable input glitch filter; STARTF and STOPF are write-one-to-clear.
    Flt,
    /// Range address.
    Ra,
}

/// One register operation of the peripheral.
#[derive(Debug, Clone, Copy, PartialEq, Eq, Structural)]
pub enum RegOp {
    /// Restores the power-on value.
    Reset(I2cReg),
    /// Writes a value.
    Write(I2cReg, u8),
    /// Reads, sets the given bits, writes back.
    SetBits(I2cReg, u8),
    /// Reads, clears the given bits, writes back.
    ClearBits(I2cReg, u8),
    /// Reads, replaces the bits under the mask (second field) with those of
    /// the value (third field), writes back.
    WriteField(I2cReg, u8, u8),
}

/// Transfer complete.
pub const S_TCF: u8 = 0x80;
/// Bus busy.
pub const S_BUSY: u8 = 0x20;
/// Arbitration lost.
pub const S_ARBL: u8 = 0x10;
/// Interrupt flag: a byte transfer finished.
pub const S_IICIF: u8 = 0x02;
/// Receive acknowledge: set when the byte was not acknowledged.
pub const S_RXAK: u8 = 0x01;
/// Write-one-to-clear bits of the status register.
pub const S_W1C: u8 = 0x12;
/// Power-on value of the status register.
pub const S_RESET: u8 = 0x80;

/// Stop condition detected.
pub const FLT_STOPF: u8 = 0x40;
/// Start condition detected.
pub const FLT_STARTF: u8 = 0x10;
/// Write-one-to-clear bits of the filter register.
pub const FLT_W1C: u8 = 0x50;

/// Module enable.
pub const C1_IICEN: u8 = 0x80;
/// Master mode.
pub const C1_MST: u8 = 0x20;
/// Transmit direction.
pub const C1_TX: u8 = 0x10;
/// Transmit no-acknowledge.
pub const C1_TXAK: u8 = 0x08;
/// Bits cleared to release the bus: master, transmit and acknowledge control.
pub const C1_RELEASE: u8 = 0x38;

/// Clock rate divider code programmed whatever rate is asked for.
pub const ICR_DIVISOR: u8 = 44;
/// Clock rate field, bits 5:0 of the frequency divider register.
pub const F_ICR_MASK: u8 = 0x3F;

pub open spec fn flag_set(x: u8, m: u8) -> bool {
    x & m != 0
}

/// Register model of the peripheral.
#[derive(Debug, Clone, Copy, PartialEq, Eq, Structural)]
pub struct I2cRegs {
    pub a1: u8,
    pub f: u8,
    pub c1: u8,
    pub s: u8,
    pub d: u8,
    pub c2: u8,
    pub flt: u8,
    pub ra: u8,
}

pub open spec fn reset_value(r: I2cReg) -> u8 {
    match r {
        I2cReg::S => S_RESET,
        _ => 0,
    }
}

/// Value that a register holds after `v` is written over `old`.
pub open spec fn write_effect(r: I2cReg, old: u8, v: u8) -> u8 {
    match r {
        I2cReg::S => old & !(v & S_W1C),
        I2cReg::Flt => (v & !FLT_W1C) | (old & FLT_W1C & !v),
        _ => v,
    }
}

impl I2cRegs {
    pub open spec fn get(&self, r: I2cReg) -> u8 {
        match r {
            I2cReg::A1 => self.a1,
            I2cReg::F => self.f,
            I2cReg::C1 => self.c1,
            I2cReg::S => self.s,
            I2cReg::D => self.d,
            I2cReg::C2 => self.c2,
            I2cReg::Flt => self.flt,
            I2cReg::Ra => self.ra,
        }
    }

    /// This model with register `r` holding `v`.
    pub open spec fn with(self, r: I2cReg, v: u8) -> I2cRegs {
        match r {
            I2cReg::A1 => I2cRegs { a1: v, ..self },
            I2cReg::F => I2cRegs { f: v, ..self },
            I2cReg::C1 => I2cRegs { c1: v, ..self },
            I2cReg::S => I2cRegs { s: v, ..self },
            I2cReg::D => I2cRegs { d: v, ..self },
            I2cReg::C2 => I2cRegs { c2: v, ..self },
            I2cReg::Flt => I2cRegs { flt: v, ..self },
            I2cReg::Ra => I2cRegs { ra: v, ..self },
        }
    }

    /// This model after the operation `op`.
    pub open spec fn applied(self, op: RegOp) -> I2cRegs {
        match op {
            RegOp::Reset(r) => self.with(r, reset_value(r)),
            RegOp::Write(r, v) => self.with(r, write_effect(r, self.get(r), v)),
            RegOp::SetBits(r, m) => self.with(r, write_effect(r, self.get(r), self.get(r) | m)),
            RegOp::ClearBits(r, m) => self.with(r, write_effect(r, self.get(r), self.get(r) & !m)),
            RegOp::WriteField(r, m, v) => self.with(
                r,
                write_effect(r, self.get(r), (self.get(r) & !m) | (v & m)),
            ),
        }
    }

    /// Power-on state.
    pub fn new() -> (r: I2cRegs)
        ensures
            r == (I2cRegs { a1: 0, f: 0, c1: 0, s: S_RESET, d: 0, c2: 0, flt: 0, ra: 0 }),
    {
        I2cRegs { a1: 0, f: 0, c1: 0, s: S_RESET, d: 0, c2: 0, flt: 0, ra: 0 }
    }

    pub fn read(&self, r: I2cReg) -> (v: u8)
        ensures
            v == self.get(r),
    {
        match r {
            I2cReg::A1 => self.a1,
            I2cReg::F => self.f,
            I2cReg::C1 => self.c1,
            I2cReg::S => self.s,
            I2cReg::D => self.d,
            I2cReg::C2 => self.c2,
            I2cReg::Flt => self.flt,
            I2cReg::Ra => self.ra,
        }
    }

    fn store(&mut self, r: I2cReg, v: u8)
        ensures
            *final(self) == old(self).with(r, v),
    {
        match r {
            I2cReg::A1 => self.a1 = v,
            I2cReg::F => self.f = v,
            I2cReg::C1 => self.c1 = v,
            I2cReg::S => self.s = v,
            I2cReg::D => self.d = v,
            I2cReg::C2 => self.c2 = v,
            I2cReg::Flt => self.flt = v,
            I2cReg::Ra => self.ra = v,
        }
    }

    /// Performs a bus write of `v` to register `r`.
    pub fn write(&mut self, r: I2cReg, v: u8)
        ensures
            *final(self) == old(self).with(r, write_effect(r, old(self).get(r), v)),
    {
        let old_v = self.read(r);
        let new_v = match r {
            I2cReg::S => old_v & !(v & S_W1C),
            I2cReg::Flt => (v & !FLT_W1C) | (old_v & FLT_W1C & !v),
            _ => v,
        };
        self.store(r, new_v);
    }

    /// Performs one register operation.
    pub fn apply(&mut self, op: &RegOp)
        ensures
            *final(self) == old(self).applied(*op),
    {
        match *op {
            RegOp::Reset(r) => {
                let v = match r {
                    I2cReg::S => S_RESET,
                    _ => 0,
                };
                self.store(r, v);
            },
            RegOp::Write(r, v) => self.write(r, v),
            RegOp::SetBits(r, m) => {
                let v = self.read(r) | m;
                self.write(r, v);
            },
            RegOp::ClearBits(r, m) => {
                let v = self.read(r) & !m;
                self.write(r, v);
            },
            RegOp::WriteField(r, m, v) => {
                let w = (self.read(r) & !m) | (v & m);
                self.write(r, w);
            },
        }
    }

    /// Performs register operations in order.
    pub fn apply_all(&mut self, ops: &Vec<RegOp>)
        ensures
            *final(self) == apply_seq(*old(self), ops@),
    {
        let mut k: usize = 0;
        proof {
            assert(ops@.subrange(0, 0) =~= Seq::<RegOp>::empty());
        }
        while k < ops.len()
            invariant
                k <= ops@.len(),
                *self == apply_seq(*old(self), ops@.subrange(0, k as int)),
            decreases ops@.len() - k,
        {
            self.apply(&ops[k]);
            proof {
                let done = ops@.subrange(0, k + 1);
                assert(done.drop_last() =~= ops@.subrange(0, k as int));
            }
            k = k + 1;
        }
        proof {
            assert(ops@.subrange(0, k as int) =~= ops@);
        }
    }
}

/// A register model after operations `ops`, in order.
pub open spec fn apply_seq(regs: I2cRegs, ops: Seq<RegOp>) -> I2cRegs
    decreases ops.len(),
{
    if ops.len() == 0 {
        regs
    } else {
        apply_seq(regs, ops.drop_last()).applied(ops.last())
    }
}

/// Outcome of the status check: the arbitration-lost flag first, then a
/// missing acknowledge; otherwise the status itself.
pub open spec fn check_result(status: u8) -> Result<u8, I2cError> {
    if flag_set(status, S_ARBL) {
        Err(I2cError::ARBITRATION)
    } else if flag_set(status, S_RXAK) {
        Err(I2cError::NACK)
    } else {
        Ok(status)
    }
}

/// Operations of the status check: an arbitration loss is cleared before it
/// is reported; on success the start and stop detection flags are cleared.
pub open spec fn check_ops(status: u8, flt: u8) -> Seq<RegOp> {
    if flag_set(status, S_ARBL) {
        seq![RegOp::Write(I2cReg::S, S_ARBL)]
    } else if flag_set(status, S_RXAK) {
        seq![]
    } else {
        let a: Seq<RegOp> = if flag_set(flt, FLT_STARTF) {
            seq![RegOp::SetBits(I2cReg::Flt, FLT_STARTF)]
        } else {
            seq![]
        };
        if flag_set(flt, FLT_STOPF) {
            a.push(RegOp::SetBits(I2cReg::Flt, FLT_STOPF))
        } else {
            a
        }
    }
}

/// Checks the status and filter registers for errors and latched events.
pub fn check_and_clear_error_flags(status: u8, flt: u8) -> (r: (Result<u8, I2cError>, Vec<RegOp>))
    ensures
        r.0 == check_result(status),
        r.1@ == check_ops(status, flt),
{
    let mut ops: Vec<RegOp> = Vec::new();
    if status & S_ARBL != 0 {
        ops.push(RegOp::Write(I2cReg::S, S_ARBL));
        return (Err(I2cError::ARBITRATION), ops);
    }
    if status & S_RXAK != 0 {
        return (Err(I2cError::NACK), ops);
    }
    if flt & FLT_STARTF != 0 {
        ops.push(RegOp::SetBits(I2cReg::Flt, FLT_STARTF));
    }
    if flt & FLT_STOPF != 0 {
        ops.push(RegOp::SetBits(I2cReg::Flt, FLT_STOPF));
    }
    proof {
        if flt & FLT_STARTF == 0 {
            assert(ops@ =~= check_ops(status, flt));
        }
    }
    (Ok(status), ops)
}

/// Address byte of a write: the 7-bit address shifted left, low bit clear.
pub open spec fn address_byte(address: u8) -> u8 {
    address << 1u8
}

/// The first error of a transfer wins.
pub open spec fn first_error(outcome: Result<(), I2cError>, e: I2cError) -> Result<(), I2cError> {
    match outcome {
        Ok(_) => Err(e),
        Err(x) => Err(x),
    }
}

/// Where a write transfer stands.
#[derive(Debug, Clone, Copy, PartialEq, Eq)]
pub enum Phase {
    /// Waiting for the bus to be ready before the start condition.
    Start,
    /// The address byte is on the wire; waiting for it to complete.
    AddressAck,
    /// Waiting for the bus to be ready before payload byte `index`.
    ByteReady(usize),
    /// Payload byte `index` is on the wire; waiting for it to complete.
    ByteDone(usize),
    /// The bus was released; waiting for it to become idle.
    Stop(Result<(), I2cError>),
    /// Finished with this outcome.
    Done(Result<(), I2cError>),
}

/// Next phase and operations of a write transfer of `bytes` to `address`,
/// in `phase`, given the status and filter registers as read.
pub open spec fn step_spec(address: u8, bytes: Seq<u8>, phase: Phase, s: u8, flt: u8) -> (Phase, Seq<RegOp>) {
    let c = check_result(s);
    let cops = check_ops(s, flt);
    let release = RegOp::ClearBits(I2cReg::C1, C1_RELEASE);
    match phase {
        Phase::Start => match c {
            Err(e) => (Phase::Stop(Err(e)), cops.push(release)),
            Ok(_) => if !flag_set(s, S_TCF) {
                (Phase::Start, cops)
            } else {
                (
                    Phase::AddressAck,
                    cops.push(RegOp::SetBits(I2cReg::C1, C1_MST | C1_TX)).push(
                        RegOp::Write(I2cReg::D, address_byte(address)),
                    ),
                )
            },
        },
        Phase::AddressAck => if !flag_set(s, S_IICIF) {
            (Phase::AddressAck, seq![])
        } else {
            let ack = cops.push(RegOp::Write(I2cReg::S, S_IICIF));
            match c {
                Err(e) => (Phase::Stop(Err(e)), ack.push(release)),
                Ok(_) => if bytes.len() == 0 {
                    (Phase::Stop(Ok(())), ack.push(release))
                } else {
                    (Phase::ByteReady(0), ack)
                },
            }
        },
        Phase::ByteReady(i) => match c {
            Err(e) => (Phase::Stop(Err(e)), cops.push(release)),
            Ok(_) => if !flag_set(s, S_TCF) {
                (Phase::ByteReady(i), cops)
            } else {
                (
                    Phase::ByteDone(i),
                    cops.push(RegOp::Write(I2cReg::S, S_IICIF)).push(
                        RegOp::SetBits(I2cReg::C1, C1_TX),
                    ).push(RegOp::Write(I2cReg::D, bytes[i as int])),
                )
            },
        },
        Phase::ByteDone(i) => match c {
            Err(e) => (Phase::Stop(Err(e)), cops.push(release)),
            Ok(_) => if !flag_set(s, S_IICIF) {
                (Phase::ByteDone(i), cops)
            } else if i + 1 < bytes.len() {
                (Phase::ByteReady((i + 1) as usize), cops.push(RegOp::Write(I2cReg::S, S_IICIF)))
            } else {
                (Phase::Stop(Ok(())), cops.push(RegOp::Write(I2cReg::S, S_IICIF)).push(release))
            },
        },
        Phase::Stop(o) => match c {
            Err(e) => if e == I2cError::ARBITRATION || o is Ok {
                (Phase::Done(first_error(o, e)), cops)
            } else if flag_set(s, S_BUSY) {
                (Phase::Stop(o), cops)
            } else {
                (Phase::Done(o), cops)
            },
            Ok(_) => if flag_set(s, S_BUSY) {
                (Phase::Stop(o), cops)
            } else {
                (Phase::Done(o), cops)
            },
        },
        Phase::Done(o) => (Phase::Done(o), seq![]),
    }
}

/// A blocking write in progress: the address, the payload and the phase.
pub struct WriteTransfer {
    pub address: u8,
    pub bytes: Vec<u8>,
    pub phase: Phase,
}

impl WriteTransfer {
    /// A payload phase names a byte of the payload.
    pub open spec fn wf(&self) -> bool {
        match self.phase {
            Phase::ByteReady(i) => i < self.bytes@.len(),
            Phase::ByteDone(i) => i < self.bytes@.len(),
            _ => true,
        }
    }

    pub open spec fn outcome_spec(&self) -> Option<Result<(), I2cError>> {
        match self.phase {
            Phase::Done(o) => Some(o),
            _ => None,
        }
    }

    /// The outcome, once the transfer has finished.
    pub fn outcome(&self) -> (r: Option<Result<(), I2cError>>)
        ensures
            r == self.outcome_spec(),
    {
        match self.phase {
            Phase::Done(o) => Some(o),
            _ => None,
        }
    }

    /// Start phase: check the status first; once the bus is ready, take it
    /// as master transmitter and send the address with write intent.
    fn start_sequence(&self, status: u8, flt: u8) -> (r: (Phase, Vec<RegOp>))
        requires
            self.phase == Phase::Start,
        ensures
            (r.0, r.1@) == step_spec(self.address, self.bytes@, self.phase, status, flt),
    {
        let (c, mut ops) = check_and_clear_error_flags(status, flt);
        match c {
            Err(e) => {
                ops.push(RegOp::ClearBits(I2cReg::C1, C1_RELEASE));
                (Phase::Stop(Err(e)), ops)
            },
            Ok(_) => {
                if status & S_TCF == 0 {
                    return (Phase::Start, ops);
                }
                ops.push(RegOp::SetBits(I2cReg::C1, C1_MST | C1_TX));
                ops.push(RegOp::Write(I2cReg::D, self.address << 1u8));
                (Phase::AddressAck, ops)
            },
        }
    }

    /// Address phase: once the address byte completes, acknowledge the
    /// interrupt flag and check that the device answered.
    fn address_ack(&self, status: u8, flt: u8) -> (r: (Phase, Vec<RegOp>))
        requires
            self.phase == Phase::AddressAck,
        ensures
            (r.0, r.1@) == step_spec(self.address, self.bytes@, self.phase, status, flt),
    {
        if status & S_IICIF == 0 {
            return (Phase::AddressAck, Vec::new());
        }
        let (c, mut ops) = check_and_clear_error_flags(status, flt);
        ops.push(RegOp::Write(I2cReg::S, S_IICIF));
        match c {
            Err(e) => {
                ops.push(RegOp::ClearBits(I2cReg::C1, C1_RELEASE));
                (Phase::Stop(Err(e)), ops)
            },
            Ok(_) => {
                if self.bytes.len() == 0 {
                    ops.push(RegOp::ClearBits(I2cReg::C1, C1_RELEASE));
                    (Phase::Stop(Ok(())), ops)
                } else {
                    (Phase::ByteReady(0), ops)
                }
            },
        }
    }

    /// Payload phase: put byte `i` on the wire once the bus is ready, then
    /// wait for it to complete; any error ends the payload.
    fn send_byte(&self, status: u8, flt: u8) -> (r: (Phase, Vec<RegOp>))
        requires
            self.wf(),
            self.phase is ByteReady || self.phase is ByteDone,
        ensures
            (r.0, r.1@) == step_spec(self.address, self.bytes@, self.phase, status, flt),
    {
        let (c, mut ops) = check_and_clear_error_flags(status, flt);
        if let Err(e) = c {
            ops.push(RegOp::ClearBits(I2cReg::C1, C1_RELEASE));
            return (Phase::Stop(Err(e)), ops);
        }
        match self.phase {
            Phase::ByteReady(i) => {
                if status & S_TCF == 0 {
                    return (Phase::ByteReady(i), ops);
                }
                ops.push(RegOp::Write(I2cReg::S, S_IICIF));
                ops.push(RegOp::SetBits(I2cReg::C1, C1_TX));
                ops.push(RegOp::Write(I2cReg::D, self.bytes[i]));
                (Phase::ByteDone(i), ops)
            },
            Phase::ByteDone(i) => {
                if status & S_IICIF == 0 {
                    return (Phase::ByteDone(i), ops);
                }
                ops.push(RegOp::Write(I2cReg::S, S_IICIF));
                if i < self.bytes.len() - 1 {
                    (Phase::ByteReady(i + 1), ops)
                } else {
                    ops.push(RegOp::ClearBits(I2cReg::C1, C1_RELEASE));
                    (Phase::Stop(Ok(())), ops)
                }
            },
            _ => (self.phase, ops),
        }
    }

    /// Stop phase: the bus was released; wait until it is idle, checking for
    /// errors on every poll.
    fn stop_sequence(&self, status: u8, flt: u8) -> (r: (Phase, Vec<RegOp>))
        requires
            self.phase is Stop,
        ensures
            (r.0, r.1@) == step_spec(self.address, self.bytes@, self.phase, status, flt),
    {
        let o = match self.phase {
            Phase::Stop(o) => o,
            _ => Ok(()),
        };
        let (c, ops) = check_and_clear_error_flags(status, flt);
        let busy = status & S_BUSY != 0;
        match c {
            Err(e) => {
                if e == I2cError::ARBITRATION || o.is_ok() {
                    let first = match o {
                        Ok(_) => Err(e),
                        Err(x) => Err(x),
                    };
                    (Phase::Done(first), ops)
                } else if busy {
                    (Phase::Stop(o), ops)
                } else {
                    (Phase::Done(o), ops)
                }
            },
            Ok(_) => {
                if busy {
                    (Phase::Stop(o), ops)
                } else {
                    (Phase::Done(o), ops)
                }
            },
        }
    }

    /// Advances the transfer by one poll: `status` and `flt` are the status
    /// and filter registers as just read; the result is the register
    /// operations to perform, in order, before the next poll.
    pub fn step(&mut self, status: u8, flt: u8) -> (ops: Vec<RegOp>)
        requires
            old(self).wf(),
        ensures
            final(self).wf(),
            final(self).address == old(self).address,
            final(self).bytes@ == old(self).bytes@,
            (final(self).phase, ops@) == step_spec(
                old(self).address,
                old(self).bytes@,
                old(self).phase,
                status,
                flt,
            ),
    {
        let (phase, ops) = match self.phase {
            Phase::Start => self.start_sequence(status, flt),
            Phase::AddressAck => self.address_ack(status, flt),
            Phase::ByteReady(_) => self.send_byte(status, flt),
            Phase::ByteDone(_) => self.send_byte(status, flt),
            Phase::Stop(_) => self.stop_sequence(status, flt),
            Phase::Done(o) => (Phase::Done(o), Vec::new()),
        };
        self.phase = phase;
        ops
    }
}

/// Register operations that bring the peripheral from any state to an
/// enabled master-ready configuration.
pub open spec fn init_ops() -> Seq<RegOp> {
    seq![
        RegOp::ClearBits(I2cReg::C1, C1_IICEN),
        RegOp::Reset(I2cReg::A1),
        RegOp::Reset(I2cReg::F),
        RegOp::Reset(I2cReg::C1),
        RegOp::Write(I2cReg::S, S_ARBL | S_IICIF),
        RegOp::Reset(I2cReg::C2),
        RegOp::SetBits(I2cReg::Flt, FLT_STARTF | FLT_STOPF),
        RegOp::Reset(I2cReg::Ra),
        RegOp::ClearBits(I2cReg::C1, C1_IICEN),
        RegOp::WriteField(I2cReg::F, F_ICR_MASK, ICR_DIVISOR),
        RegOp::SetBits(I2cReg::C1, C1_IICEN),
    ]
}

/// Pin pair that may serve as clock and data lines of bus `I2C`.
pub trait Pins<I2C> {}

/// Pin that may serve as clock line of bus `I2C`.
pub trait PinScl<I2C> {}

/// Pin that may serve as data line of bus `I2C`.
pub trait PinSda<I2C> {}

impl<I2C, SCL, SDA> Pins<I2C> for (SCL, SDA) where SCL: PinScl<I2C>, SDA: PinSda<I2C> {}

impl PinScl<I2C0> for PE24<AlternativeOD<AF5>> {}

impl PinSda<I2C0> for PE25<AlternativeOD<AF5>> {}

/// Restricts [`Instance`] to the bus peripherals of this part.
pub trait Sealed {}

/// A bus peripheral.
pub trait Instance: Sealed {
    /// SCGC4 bit of the peripheral's clock gate.
    spec fn gate_bit() -> u32;

    /// Opens the peripheral's clock gate.
    fn enable_clock(sim: &mut ClockGates)
        ensures
            final(sim).scgc4 == old(sim).scgc4 | (1u32 << Self::gate_bit()),
            final(sim).scgc5 == old(sim).scgc5,
    ;
}

/// Handle of the bus peripheral I2C0.
pub struct I2C0;

impl Sealed for I2C0 {}

impl Instance for I2C0 {
    open spec fn gate_bit() -> u32 {
        I2C0_GATE_BIT
    }

    fn enable_clock(sim: &mut ClockGates) {
        sim.enable_scgc4(I2C0_GATE_BIT);
    }
}

/// Bus master: one peripheral and the clock and data pins wired to it.
pub struct I2c<I2C: Instance, PINS> {
    i2c: I2C,
    pins: PINS,
}

impl<I2C: Instance, PINS> I2c<I2C, PINS> {
    /// Opens the peripheral's clock gate and takes ownership of it and of its
    /// pins; the operations returned configure it and must be performed
    /// before the first transfer.
    pub fn new(i2c: I2C, pins: PINS, speed: u32, sim: &mut ClockGates) -> (r: (Self, Vec<RegOp>))
        where
            PINS: Pins<I2C>,
        ensures
            final(sim).scgc4 == old(sim).scgc4 | (1u32 << I2C::gate_bit()),
            final(sim).scgc5 == old(sim).scgc5,
            r.1@ == init_ops(),
    {
        I2C::enable_clock(sim);
        let i2c = I2c { i2c, pins };
        let ops = i2c.i2c_init(speed);
        (i2c, ops)
    }

    /// Configuration sequence: disable, reset every configuration register,
    /// clear latched flags, program the divider, enable.
    pub fn i2c_init(&self, speed: u32) -> (ops: Vec<RegOp>)
        ensures
            ops@ == init_ops(),
    {
        let mut ops: Vec<RegOp> = Vec::new();
        ops.push(RegOp::ClearBits(I2cReg::C1, C1_IICEN));
        ops.push(RegOp::Reset(I2cReg::A1));
        ops.push(RegOp::Reset(I2cReg::F));
        ops.push(RegOp::Reset(I2cReg::C1));
        ops.push(RegOp::Write(I2cReg::S, S_ARBL | S_IICIF));
        ops.push(RegOp::Reset(I2cReg::C2));
        ops.push(RegOp::SetBits(I2cReg::Flt, FLT_STARTF | FLT_STOPF));
        ops.push(RegOp::Reset(I2cReg::Ra));
        ops.push(RegOp::ClearBits(I2cReg::C1, C1_IICEN));
        ops.push(self.set_baudrate(speed));
        ops.push(RegOp::SetBits(I2cReg::C1, C1_IICEN));
        proof {
            assert(ops@ =~= init_ops());
        }
        ops
    }

    /// Divider programming: the clock rate field gets a fixed code, which
    /// `speed` does not select; the multiplier bits keep their value.
    pub fn set_baudrate(&self, speed: u32) -> (op: RegOp)
        ensures
            op == RegOp::WriteField(I2cReg::F, F_ICR_MASK, ICR_DIVISOR),
            forall|regs: I2cRegs|
                #![trigger regs.applied(op)]
                regs.applied(op).f & F_ICR_MASK == ICR_DIVISOR && regs.applied(op).f & 0xC0u8
                    == regs.f & 0xC0u8,
    {
        proof {
            assert forall|f: u8| ((f & !0x3Fu8) | (44u8 & 0x3Fu8)) & 0x3Fu8 == 44u8 && ((f & !0x3Fu8) | (44u8 & 0x3Fu8)) & 0xC0u8 == f & 0xC0u8 by {
                assert(((f & !0x3Fu8) | (44u8 & 0x3Fu8)) & 0x3Fu8 == 44u8 && ((f & !0x3Fu8) | (44u8 & 0x3Fu8)) & 0xC0u8 == f & 0xC0u8) by (bit_vector);
            }
        }
        RegOp::WriteField(I2cReg::F, F_ICR_MASK, ICR_DIVISOR)
    }

    /// Begins a write of `bytes` to the device at 7-bit `address`.
    pub fn write(&mut self, address: u8, bytes: &[u8]) -> (t: WriteTransfer)
        ensures
            t.wf(),
            t.address == address,
            t.bytes@ == bytes@,
            t.phase == Phase::Start,
    {
        let mut v: Vec<u8> = Vec::new();
        let mut k: usize = 0;
        while k < bytes.len()
            invariant
                k <= bytes@.len(),
                v@ == bytes@.subrange(0, k as int),
            decreases bytes@.len() - k,
        {
            v.push(bytes[k]);
            k = k + 1;
            proof {
                assert(v@ =~= bytes@.subrange(0, k as int));
            }
        }
        proof {
            assert(v@ =~= bytes@);
        }
        WriteTransfer { address, bytes: v, phase: Phase::Start }
    }

    /// Reading is not supported: the result is a fixed placeholder.
    pub fn recv_byte(&self) -> (r: Result<u8, I2cError>)
        ensures
            r == Ok::<u8, I2cError>(0),
    {
        Ok(0)
    }
}

/// `op` writes the data register, which puts a byte on the wire.
pub open spec fn writes_data(op: RegOp) -> bool {
    match op {
        RegOp::Write(I2cReg::D, _) => true,
        _ => false,
    }
}

proof fn lemma_apply_two(regs: I2cRegs, a: RegOp, b: RegOp)
    ensures
        apply_seq(regs, seq![a, b]) == regs.applied(a).applied(b),
{
    assert(seq![a, b].drop_last() =~= seq![a]);
    assert(seq![a].drop_last() =~= Seq::<RegOp>::empty());
    assert(apply_seq(regs, Seq::<RegOp>::empty()) == regs);
    assert(apply_seq(regs, seq![a]) == regs.applied(a));
}

/// Whatever state the peripheral was in, the construction sequence leaves
/// it enabled, not in master mode, with the fixed divider, the other
/// configuration registers at their defaults and no latched flag.
pub proof fn lemma_init_configures(regs: I2cRegs)
    ensures
        apply_seq(regs, init_ops()).c1 == C1_IICEN,
        apply_seq(regs, init_ops()).f == ICR_DIVISOR,
        apply_seq(regs, init_ops()).a1 == 0,
        apply_seq(regs, init_ops()).c2 == 0,
        apply_seq(regs, init_ops()).ra == 0,
        !flag_set(apply_seq(regs, init_ops()).s, S_ARBL),
        !flag_set(apply_seq(regs, init_ops()).s, S_IICIF),
        !flag_set(apply_seq(regs, init_ops()).flt, FLT_STARTF),
        !flag_set(apply_seq(regs, init_ops()).flt, FLT_STOPF),
{
    let ops = init_ops();
    assert(ops.subrange(0, 11) =~= ops);
    let r0 = regs;
    let r1 = apply_seq(r0, ops.subrange(0, 1));
    assert(ops.subrange(0, 0) =~= Seq::<RegOp>::empty());
    assert(apply_seq(r0, ops.subrange(0, 0)) == r0);
    let r2 = apply_seq(r0, ops.subrange(0, 2));
    let r3 = apply_seq(r0, ops.subrange(0, 3));
    let r4 = apply_seq(r0, ops.subrange(0, 4));
    let r5 = apply_seq(r0, ops.subrange(0, 5));
    let r6 = apply_seq(r0, ops.subrange(0, 6));
    let r7 = apply_seq(r0, ops.subrange(0, 7));
    let r8 = apply_seq(r0, ops.subrange(0, 8));
    let r9 = apply_seq(r0, ops.subrange(0, 9));
    let r10 = apply_seq(r0, ops.subrange(0, 10));
    let r11 = apply_seq(r0, ops.subrange(0, 11));
    assert(ops.subrange(0, 1).drop_last() =~= ops.subrange(0, 0));
    assert(r1 == r0.applied(ops[0]));
    assert(ops.subrange(0, 2).drop_last() =~= ops.subrange(0, 1));
    assert(r2 == r1.applied(ops[1]));
    assert(ops.subrange(0, 3).drop_last() =~= ops.subrange(0, 2));
    assert(r3 == r2.applied(ops[2]));
    assert(ops.subrange(0, 4).drop_last() =~= ops.subrange(0, 3));
    assert(r4 == r3.applied(ops[3]));
    assert(ops.subrange(0, 5).drop_last() =~= ops.subrange(0, 4));
    assert(r5 == r4.applied(ops[4]));
    assert(ops.subrange(0, 6).drop_last() =~= ops.subrange(0, 5));
    assert(r6 == r5.applied(ops[5]));
    assert(ops.subrange(0, 7).drop_last() =~= ops.subrange(0, 6));
    assert(r7 == r6.applied(ops[6]));
    assert(ops.subrange(0, 8).drop_last() =~= ops.subrange(0, 7));
    assert(r8 == r7.applied(ops[7]));
    assert(ops.subrange(0, 9).drop_last() =~= ops.subrange(0, 8));
    assert(r9 == r8.applied(ops[8]));
    assert(ops.subrange(0, 10).drop_last() =~= ops.subrange(0, 9));
    assert(r10 == r9.applied(ops[9]));
    assert(ops.subrange(0, 11).drop_last() =~= ops.subrange(0, 10));
    assert(r11 == r10.applied(ops[10]));
    assert(0x10u8 | 0x02u8 == 0x12u8) by (bit_vector);
    assert(0x10u8 | 0x40u8 == 0x50u8) by (bit_vector);
    let s4 = r4.s;
    assert(s4 & !((0x12u8) & 0x12u8) & 0x10u8 == 0) by (bit_vector);
    assert(s4 & !((0x12u8) & 0x12u8) & 0x02u8 == 0) by (bit_vector);
    let f6 = r6.flt;
    assert((((f6 | 0x50u8) & !0x50u8) | (f6 & 0x50u8 & !(f6 | 0x50u8))) & 0x10u8 == 0)
        by (bit_vector);
    assert((((f6 | 0x50u8) & !0x50u8) | (f6 & 0x50u8 & !(f6 | 0x50u8))) & 0x40u8 == 0)
        by (bit_vector);
    assert((0u8 & !0x80u8) == 0u8) by (bit_vector);
    assert(((0u8 & !0x3Fu8) | (44u8 & 0x3Fu8)) == 44u8) by (bit_vector);
    assert((0u8 | 0x80u8) == 0x80u8) by (bit_vector);
}

/// An arbitration loss seen while the payload is being sent ends the
/// payload: no further byte is written, the latched flag is cleared, the bus
/// is released, and the transfer is bound to report the loss.
pub proof fn lemma_arbitration_loss_mid_payload(
    address: u8,
    bytes: Seq<u8>,
    phase: Phase,
    regs: I2cRegs,
    flt: u8,
)
    requires
        phase is ByteReady || phase is ByteDone,
        flag_set(regs.s, S_ARBL),
    ensures
        step_spec(address, bytes, phase, regs.s, flt).0 == Phase::Stop(Err(I2cError::ARBITRATION)),
        step_spec(address, bytes, phase, regs.s, flt).1 == seq![
            RegOp::Write(I2cReg::S, S_ARBL),
            RegOp::ClearBits(I2cReg::C1, C1_RELEASE),
        ],
        !flag_set(apply_seq(regs, step_spec(address, bytes, phase, regs.s, flt).1).s, S_ARBL),
        apply_seq(regs, step_spec(address, bytes, phase, regs.s, flt).1).c1 & C1_MST == 0,
        apply_seq(regs, step_spec(address, bytes, phase, regs.s, flt).1).d == regs.d,
{
    let ops = step_spec(address, bytes, phase, regs.s, flt).1;
    assert(ops =~= seq![RegOp::Write(I2cReg::S, S_ARBL), RegOp::ClearBits(I2cReg::C1, C1_RELEASE)]);
    lemma_apply_two(regs, RegOp::Write(I2cReg::S, S_ARBL), RegOp::ClearBits(I2cReg::C1, C1_RELEASE));
    let s = regs.s;
    let c = regs.c1;
    assert(s & !(0x10u8 & 0x12u8) & 0x10u8 == 0) by (bit_vector);
    assert((c & !0x38u8) & 0x20u8 == 0) by (bit_vector);
}

/// Once the bus has been released after an error, the transfer waits for
/// the bus to become idle and then reports that first error; an
/// arbitration loss in the meantime ends the wait without replacing it.
pub proof fn lemma_stop_after_error(address: u8, bytes: Seq<u8>, e: I2cError, s: u8, flt: u8)
    ensures
        step_spec(address, bytes, Phase::Stop(Err(e)), s, flt).0 == if !flag_set(s, S_ARBL)
            && flag_set(s, S_BUSY) {
            Phase::Stop(Err(e))
        } else {
            Phase::Done(Err(e))
        },
{
}

/// A device that does not acknowledge its address: the bus is released at
/// once, no payload byte is sent, and the transfer is bound to report NACK.
pub proof fn lemma_nack_after_address(address: u8, bytes: Seq<u8>, regs: I2cRegs, flt: u8)
    requires
        flag_set(regs.s, S_IICIF),
        flag_set(regs.s, S_RXAK),
        !flag_set(regs.s, S_ARBL),
    ensures
        step_spec(address, bytes, Phase::AddressAck, regs.s, flt).0 == Phase::Stop(Err(I2cError::NACK)),
        step_spec(address, bytes, Phase::AddressAck, regs.s, flt).1 == seq![
            RegOp::Write(I2cReg::S, S_IICIF),
            RegOp::ClearBits(I2cReg::C1, C1_RELEASE),
        ],
        apply_seq(regs, step_spec(address, bytes, Phase::AddressAck, regs.s, flt).1).c1 & C1_MST == 0,
{
    let ops = step_spec(address, bytes, Phase::AddressAck, regs.s, flt).1;
    assert(ops =~= seq![RegOp::Write(I2cReg::S, S_IICIF), RegOp::ClearBits(I2cReg::C1, C1_RELEASE)]);
    lemma_apply_two(regs, RegOp::Write(I2cReg::S, S_IICIF), RegOp::ClearBits(I2cReg::C1, C1_RELEASE));
    let c = regs.c1;
    assert((c & !0x38u8) & 0x20u8 == 0) by (bit_vector);
}

/// With an empty payload no payload phase is ever entered and the only byte
/// written to the data register is the address: start, address, stop.
pub proof fn lemma_empty_payload(address: u8, phase: Phase, s: u8, flt: u8)
    requires
        !(phase is ByteReady || phase is ByteDone),
    ensures
        !(step_spec(address, Seq::<u8>::empty(), phase, s, flt).0 is ByteReady),
        !(step_spec(address, Seq::<u8>::empty(), phase, s, flt).0 is ByteDone),
        forall|k: int|
            0 <= k < step_spec(address, Seq::<u8>::empty(), phase, s, flt).1.len() && writes_data(
                #[trigger] step_spec(address, Seq::<u8>::empty(), phase, s, flt).1[k],
            ) ==> phase == Phase::Start && step_spec(address, Seq::<u8>::empty(), phase, s, flt).1[k]
                == RegOp::Write(I2cReg::D, address_byte(address)),
        phase == Phase::AddressAck && flag_set(s, S_IICIF) && !flag_set(s, S_ARBL) && !flag_set(
            s,
            S_RXAK,
        ) ==> step_spec(address, Seq::<u8>::empty(), phase, s, flt).0 == Phase::Stop(Ok(())),
{
    let ops = step_spec(address, Seq::<u8>::empty(), phase, s, flt).1;
    assert forall|k: int| 0 <= k < ops.len() && writes_data(#[trigger] ops[k]) implies phase
        == Phase::Start && ops[k] == RegOp::Write(I2cReg::D, address_byte(address)) by {
        let cops = check_ops(s, flt);
        assert(forall|m: int| 0 <= m < cops.len() ==> !writes_data(#[trigger] cops[m]));
    }
}

/// Phase and operations of a write transfer after the polls `polls`, each a
/// pair of status and filter register values, starting from `phase`.
pub open spec fn run_spec(address: u8, bytes: Seq<u8>, phase: Phase, polls: Seq<(u8, u8)>) -> (
    Phase,
    Seq<RegOp>,
)
    decreases polls.len(),
{
    if polls.len() == 0 {
        (phase, seq![])
    } else {
        let prev = run_spec(address, bytes, phase, polls.drop_last());
        let next = step_spec(address, bytes, prev.0, polls.last().0, polls.last().1);
        (next.0, prev.1 + next.1)
    }
}

/// Bytes written to the data register by `ops`, in order.
pub open spec fn data_bytes(ops: Seq<RegOp>) -> Seq<u8>
    decreases ops.len(),
{
    if ops.len() == 0 {
        seq![]
    } else {
        let rest = data_bytes(ops.drop_last());
        match ops.last() {
            RegOp::Write(I2cReg::D, v) => rest.push(v),
            _ => rest,
        }
    }
}

/// What a write transfer puts on the wire when nothing goes wrong: the
/// address byte, then the payload.
pub open spec fn wire_bytes(address: u8, bytes: Seq<u8>) -> Seq<u8> {
    seq![address_byte(address)] + bytes
}

/// The transfer has taken an error and is stopping or done with it.
pub open spec fn failed_with(phase: Phase, e: I2cError) -> bool {
    phase == Phase::Stop(Err(e)) || phase == Phase::Done(Err(e))
}

/// The transfer has taken an error.
pub open spec fn is_failed(phase: Phase) -> bool {
    match phase {
        Phase::Stop(Err(_)) => true,
        Phase::Done(Err(_)) => true,
        _ => false,
    }
}

/// Any error the transfer has taken is an arbitration loss or a missing
/// acknowledge.
pub open spec fn error_from_flags(phase: Phase) -> bool {
    match phase {
        Phase::Stop(Err(e)) => e == I2cError::ARBITRATION || e == I2cError::NACK,
        Phase::Done(Err(e)) => e == I2cError::ARBITRATION || e == I2cError::NACK,
        _ => true,
    }
}

/// The transfer is stopping or done.
pub open spec fn finishing(phase: Phase) -> bool {
    phase is Stop || phase is Done
}

/// No poll showed an arbitration loss or a missing acknowledge.
pub open spec fn clean_polls(polls: Seq<(u8, u8)>) -> bool {
    forall|k: int|
        0 <= k < polls.len() ==> !flag_set(#[trigger] polls[k].0, S_ARBL) && !flag_set(
            polls[k].0,
            S_RXAK,
        )
}

proof fn lemma_data_push(ops: Seq<RegOp>, op: RegOp)
    ensures
        data_bytes(ops.push(op)) == if writes_data(op) {
            data_bytes(ops).push(
                match op {
                    RegOp::Write(_, v) => v,
                    _ => 0,
                },
            )
        } else {
            data_bytes(ops)
        },
{
    assert(ops.push(op).drop_last() =~= ops);
}

proof fn lemma_data_append(a: Seq<RegOp>, b: Seq<RegOp>)
    ensures
        data_bytes(a + b) == data_bytes(a) + data_bytes(b),
    decreases b.len(),
{
    if b.len() == 0 {
        assert(a + b =~= a);
        assert(data_bytes(a) + data_bytes(b) =~= data_bytes(a));
    } else {
        lemma_data_append(a, b.drop_last());
        assert((a + b).drop_last() =~= a + b.drop_last());
        assert((a + b).last() == b.last());
        let x = b.last();
        match x {
            RegOp::Write(I2cReg::D, v) => {
                assert(data_bytes(a) + data_bytes(b.drop_last()).push(v) =~= (data_bytes(a)
                    + data_bytes(b.drop_last())).push(v));
            },
            _ => {},
        }
    }
}

proof fn lemma_check_ops_no_data(s: u8, flt: u8)
    ensures
        data_bytes(check_ops(s, flt)) == Seq::<u8>::empty(),
{
    let e = Seq::<RegOp>::empty();
    assert(data_bytes(e) == Seq::<u8>::empty());
    lemma_data_push(e, RegOp::Write(I2cReg::S, S_ARBL));
    lemma_data_push(e, RegOp::SetBits(I2cReg::Flt, FLT_STARTF));
    lemma_data_push(e, RegOp::SetBits(I2cReg::Flt, FLT_STOPF));
    lemma_data_push(seq![RegOp::SetBits(I2cReg::Flt, FLT_STARTF)], RegOp::SetBits(I2cReg::Flt, FLT_STOPF));
    assert(seq![RegOp::Write(I2cReg::S, S_ARBL)] =~= e.push(RegOp::Write(I2cReg::S, S_ARBL)));
    assert(seq![RegOp::SetBits(I2cReg::Flt, FLT_STARTF)] =~= e.push(RegOp::SetBits(I2cReg::Flt, FLT_STARTF)));
}

/// Bytes that one step writes to the data register: the address byte when
/// the start condition goes out, payload byte `i` when it goes out, nothing
/// otherwise.
proof fn lemma_step_data(address: u8, bytes: Seq<u8>, phase: Phase, s: u8, flt: u8)
    ensures
        data_bytes(step_spec(address, bytes, phase, s, flt).1) == if phase is Start
            && step_spec(address, bytes, phase, s, flt).0 is AddressAck {
            seq![address_byte(address)]
        } else if phase is ByteReady && step_spec(address, bytes, phase, s, flt).0 is ByteDone {
            seq![bytes[phase->ByteReady_0 as int]]
        } else {
            Seq::<u8>::empty()
        },
{
    let cops = check_ops(s, flt);
    lemma_check_ops_no_data(s, flt);
    let release = RegOp::ClearBits(I2cReg::C1, C1_RELEASE);
    let ack = RegOp::Write(I2cReg::S, S_IICIF);
    lemma_data_push(cops, release);
    lemma_data_push(cops, ack);
    lemma_data_push(cops.push(ack), release);
    let mt = RegOp::SetBits(I2cReg::C1, C1_MST | C1_TX);
    lemma_data_push(cops, mt);
    lemma_data_push(cops.push(mt), RegOp::Write(I2cReg::D, address_byte(address)));
    let tx = RegOp::SetBits(I2cReg::C1, C1_TX);
    lemma_data_push(cops.push(ack), tx);
    match phase {
        Phase::ByteReady(i) => {
            lemma_data_push(cops.push(ack).push(tx), RegOp::Write(I2cReg::D, bytes[i as int]));
        },
        _ => {},
    }
    assert(data_bytes(Seq::<RegOp>::empty()) == Seq::<u8>::empty());
    assert(Seq::<u8>::empty().push(address_byte(address)) =~= seq![address_byte(address)]);
    match phase {
        Phase::ByteReady(i) => {
            assert(Seq::<u8>::empty().push(bytes[i as int]) =~= seq![bytes[i as int]]);
        },
        _ => {},
    }
}

/// Polls split in two run as the first part, then the second from where
/// the first left off.
pub proof fn lemma_run_append(
    address: u8,
    bytes: Seq<u8>,
    phase: Phase,
    p1: Seq<(u8, u8)>,
    p2: Seq<(u8, u8)>,
)
    ensures
        run_spec(address, bytes, phase, p1 + p2).0 == run_spec(
            address,
            bytes,
            run_spec(address, bytes, phase, p1).0,
            p2,
        ).0,
        run_spec(address, bytes, phase, p1 + p2).1 == run_spec(address, bytes, phase, p1).1
            + run_spec(address, bytes, run_spec(address, bytes, phase, p1).0, p2).1,
    decreases p2.len(),
{
    let mid = run_spec(address, bytes, phase, p1);
    if p2.len() == 0 {
        assert(p1 + p2 =~= p1);
        assert(mid.1 + Seq::<RegOp>::empty() =~= mid.1);
    } else {
        lemma_run_append(address, bytes, phase, p1, p2.drop_last());
        assert((p1 + p2).drop_last() =~= p1 + p2.drop_last());
        assert((p1 + p2).last() == p2.last());
        let a = run_spec(address, bytes, mid.0, p2.drop_last());
        let n = step_spec(address, bytes, a.0, p2.last().0, p2.last().1);
        assert((mid.1 + a.1) + n.1 =~= mid.1 + (a.1 + n.1));
    }
}

/// From the start, a transfer's payload phases name bytes of the payload,
/// and what it has written to the data register is a prefix of the address
/// byte followed by the payload: exactly the address byte once the start
/// went out, plus each payload byte once it went out. A transfer whose polls
/// never showed an arbitration loss or a missing acknowledge has taken no
/// error.
pub proof fn lemma_run_from_start(address: u8, bytes: Seq<u8>, polls: Seq<(u8, u8)>)
    requires
        bytes.len() <= usize::MAX,
    ensures
        ({
            let (ph, ops) = run_spec(address, bytes, Phase::Start, polls);
            let d = data_bytes(ops);
            let full = wire_bytes(address, bytes);
            &&& (ph is ByteReady ==> ph->ByteReady_0 < bytes.len())
            &&& (ph is ByteDone ==> ph->ByteDone_0 < bytes.len())
            &&& d.len() <= full.len()
            &&& d == full.subrange(0, d.len() as int)
            &&& (ph is Start ==> d.len() == 0)
            &&& (ph is AddressAck ==> d.len() == 1)
            &&& (ph is ByteReady ==> d.len() == ph->ByteReady_0 + 1)
            &&& (ph is ByteDone ==> d.len() == ph->ByteDone_0 + 2)
            &&& (clean_polls(polls) ==> !is_failed(ph))
            &&& error_from_flags(ph)
            &&& (finishing(ph) ==> ops.contains(RegOp::ClearBits(I2cReg::C1, C1_RELEASE)))
        }),
    decreases polls.len(),
{
    let full = wire_bytes(address, bytes);
    if polls.len() == 0 {
        assert(data_bytes(Seq::<RegOp>::empty()) == Seq::<u8>::empty());
        assert(full.subrange(0, 0) =~= Seq::<u8>::empty());
    } else {
        let init = polls.drop_last();
        lemma_run_from_start(address, bytes, init);
        let prev = run_spec(address, bytes, Phase::Start, init);
        let (s, f) = polls.last();
        let n = step_spec(address, bytes, prev.0, s, f);
        lemma_step_data(address, bytes, prev.0, s, f);
        lemma_data_append(prev.1, n.1);
        let d0 = data_bytes(prev.1);
        let d = data_bytes(prev.1 + n.1);
        match prev.0 {
            Phase::Start => {
                assert(d0 =~= Seq::<u8>::empty());
                if n.0 is AddressAck {
                    assert(d =~= full.subrange(0, 1));
                } else {
                    assert(d =~= d0);
                }
            },
            Phase::ByteReady(i) => {
                if n.0 is ByteDone {
                    assert(full[i + 1] == bytes[i as int]);
                    assert(d =~= full.subrange(0, i + 2));
                } else {
                    assert(d =~= d0);
                }
            },
            _ => {
                assert(d =~= d0);
            },
        }
        if clean_polls(polls) {
            assert(clean_polls(init)) by {
                assert forall|k: int| 0 <= k < init.len() implies !flag_set(
                    #[trigger] init[k].0,
                    S_ARBL,
                ) && !flag_set(init[k].0, S_RXAK) by {
                    assert(init[k] == polls[k]);
                }
            }
            assert(polls[polls.len() - 1] == polls.last());
        }
        let release = RegOp::ClearBits(I2cReg::C1, C1_RELEASE);
        let whole = prev.1 + n.1;
        if finishing(n.0) {
            if finishing(prev.0) {
                let k = choose|k: int| 0 <= k < prev.1.len() && prev.1[k] == release;
                assert(whole[k] == release);
            } else {
                assert(n.1.len() > 0 && n.1.last() == release);
                assert(whole[whole.len() - 1] == release);
            }
        }
    }
}

/// Once stopping or done, a transfer writes nothing more to the data
/// register and stays stopping or done; an error it has taken is the one it
/// keeps.
pub proof fn lemma_run_finishing(
    address: u8,
    bytes: Seq<u8>,
    phase: Phase,
    polls: Seq<(u8, u8)>,
    e: I2cError,
)
    requires
        finishing(phase),
    ensures
        finishing(run_spec(address, bytes, phase, polls).0),
        data_bytes(run_spec(address, bytes, phase, polls).1) == Seq::<u8>::empty(),
        failed_with(phase, e) ==> failed_with(run_spec(address, bytes, phase, polls).0, e),
    decreases polls.len(),
{
    if polls.len() == 0 {
        assert(data_bytes(Seq::<RegOp>::empty()) == Seq::<u8>::empty());
    } else {
        lemma_run_finishing(address, bytes, phase, polls.drop_last(), e);
        let prev = run_spec(address, bytes, phase, polls.drop_last());
        let (s, f) = polls.last();
        lemma_step_data(address, bytes, prev.0, s, f);
        lemma_data_append(prev.1, step_spec(address, bytes, prev.0, s, f).1);
        assert(Seq::<u8>::empty() + Seq::<u8>::empty() =~= Seq::<u8>::empty());
    }
}

/// A write with an empty payload never enters a payload phase; the only
/// byte it writes to the data register is the address byte, at most once;
/// once stopping or done it has released the bus; and unless some poll
/// shows an arbitration loss or a missing acknowledge it takes no error, so
/// once done it reports success.
pub proof fn lemma_empty_write(address: u8, polls: Seq<(u8, u8)>)
    ensures
        !(run_spec(address, Seq::<u8>::empty(), Phase::Start, polls).0 is ByteReady),
        !(run_spec(address, Seq::<u8>::empty(), Phase::Start, polls).0 is ByteDone),
        data_bytes(run_spec(address, Seq::<u8>::empty(), Phase::Start, polls).1).len() <= 1,
        data_bytes(run_spec(address, Seq::<u8>::empty(), Phase::Start, polls).1).len() == 1
            ==> data_bytes(run_spec(address, Seq::<u8>::empty(), Phase::Start, polls).1)[0]
            == address_byte(address),
        finishing(run_spec(address, Seq::<u8>::empty(), Phase::Start, polls).0) ==> run_spec(
            address,
            Seq::<u8>::empty(),
            Phase::Start,
            polls,
        ).1.contains(RegOp::ClearBits(I2cReg::C1, C1_RELEASE)),
        clean_polls(polls) && run_spec(address, Seq::<u8>::empty(), Phase::Start, polls).0 is Done
            ==> run_spec(address, Seq::<u8>::empty(), Phase::Start, polls).0 == Phase::Done(Ok(())),
{
    lemma_run_from_start(address, Seq::<u8>::empty(), polls);
    let d = data_bytes(run_spec(address, Seq::<u8>::empty(), Phase::Start, polls).1);
    let full = wire_bytes(address, Seq::<u8>::empty());
    if d.len() == 1 {
        assert(d[0] == full.subrange(0, 1)[0]);
    }
    match run_spec(address, Seq::<u8>::empty(), Phase::Start, polls).0 {
        Phase::Done(Ok(x)) => {
            assert(x == ());
        },
        _ => {},
    }
}

/// A device that does not acknowledge its address: from the poll that
/// shows it on, whatever the later polls read, the transfer is stopping or
/// done with NACK, the bus release has been issued, and the only byte
/// written to the data register is the address byte.
pub proof fn lemma_nack_write(
    address: u8,
    bytes: Seq<u8>,
    before: Seq<(u8, u8)>,
    s: u8,
    flt: u8,
    after: Seq<(u8, u8)>,
)
    requires
        bytes.len() <= usize::MAX,
        run_spec(address, bytes, Phase::Start, before).0 == Phase::AddressAck,
        flag_set(s, S_IICIF),
        flag_set(s, S_RXAK),
        !flag_set(s, S_ARBL),
    ensures
        failed_with(run_spec(address, bytes, Phase::Start, before.push((s, flt)) + after).0, I2cError::NACK),
        run_spec(address, bytes, Phase::Start, before.push((s, flt)) + after).1.contains(
            RegOp::ClearBits(I2cReg::C1, C1_RELEASE),
        ),
        data_bytes(run_spec(address, bytes, Phase::Start, before.push((s, flt)) + after).1)
            == seq![address_byte(address)],
{
    let p1 = before.push((s, flt));
    lemma_run_from_start(address, bytes, before);
    assert(p1.drop_last() =~= before);
    let r1 = run_spec(address, bytes, Phase::Start, p1);
    let n = step_spec(address, bytes, Phase::AddressAck, s, flt);
    lemma_nack_after_address(address, bytes, I2cRegs { a1: 0, f: 0, c1: 0, s, d: 0, c2: 0, flt: 0, ra: 0 }, flt);
    lemma_step_data(address, bytes, Phase::AddressAck, s, flt);
    lemma_data_append(run_spec(address, bytes, Phase::Start, before).1, n.1);
    lemma_run_append(address, bytes, Phase::Start, p1, after);
    assert(failed_with(r1.0, I2cError::NACK));
    lemma_run_finishing(address, bytes, r1.0, after, I2cError::NACK);
    let r2 = run_spec(address, bytes, r1.0, after);
    lemma_data_append(r1.1, r2.1);
    let full = wire_bytes(address, bytes);
    let d1 = data_bytes(r1.1);
    assert(d1 =~= seq![address_byte(address)]) by {
        assert(d1 == full.subrange(0, 1));
    }
    assert(d1 + Seq::<u8>::empty() =~= d1);
    let whole = r1.1 + r2.1;
    let k = (run_spec(address, bytes, Phase::Start, before).1.len() + 1) as int;
    assert(whole[k] == RegOp::ClearBits(I2cReg::C1, C1_RELEASE));
}

/// An arbitration loss seen during the payload: from that poll on, whatever
/// the later polls read, the transfer is stopping or done with ARBITRATION,
/// the latched flag has been cleared by a write of one, and nothing is
/// written to the data register beyond the bytes already sent, which are a
/// prefix of the address byte and the payload up to the current byte.
pub proof fn lemma_arbitration_write(
    address: u8,
    bytes: Seq<u8>,
    before: Seq<(u8, u8)>,
    s: u8,
    flt: u8,
    after: Seq<(u8, u8)>,
)
    requires
        bytes.len() <= usize::MAX,
        run_spec(address, bytes, Phase::Start, before).0 is ByteReady || run_spec(
            address,
            bytes,
            Phase::Start,
            before,
        ).0 is ByteDone,
        flag_set(s, S_ARBL),
    ensures
        failed_with(
            run_spec(address, bytes, Phase::Start, before.push((s, flt)) + after).0,
            I2cError::ARBITRATION,
        ),
        run_spec(address, bytes, Phase::Start, before.push((s, flt)) + after).1.contains(
            RegOp::Write(I2cReg::S, S_ARBL),
        ),
        data_bytes(run_spec(address, bytes, Phase::Start, before.push((s, flt)) + after).1)
            == data_bytes(run_spec(address, bytes, Phase::Start, before).1),
        data_bytes(run_spec(address, bytes, Phase::Start, before).1) == wire_bytes(address, bytes).subrange(
            0,
            data_bytes(run_spec(address, bytes, Phase::Start, before).1).len() as int,
        ),
        data_bytes(run_spec(address, bytes, Phase::Start, before).1).len() <= 2 + match run_spec(
            address,
            bytes,
            Phase::Start,
            before,
        ).0 {
            Phase::ByteReady(i) => i as int,
            Phase::ByteDone(i) => i as int,
            _ => 0,
        },
{
    let p1 = before.push((s, flt));
    lemma_run_from_start(address, bytes, before);
    assert(p1.drop_last() =~= before);
    let r0 = run_spec(address, bytes, Phase::Start, before);
    let r1 = run_spec(address, bytes, Phase::Start, p1);
    let n = step_spec(address, bytes, r0.0, s, flt);
    lemma_arbitration_loss_mid_payload(address, bytes, r0.0, I2cRegs { a1: 0, f: 0, c1: 0, s, d: 0, c2: 0, flt: 0, ra: 0 }, flt);
    lemma_step_data(address, bytes, r0.0, s, flt);
    lemma_data_append(r0.1, n.1);
    lemma_run_append(address, bytes, Phase::Start, p1, after);
    assert(failed_with(r1.0, I2cError::ARBITRATION));
    lemma_run_finishing(address, bytes, r1.0, after, I2cError::ARBITRATION);
    let r2 = run_spec(address, bytes, r1.0, after);
    lemma_data_append(r1.1, r2.1);
    assert(data_bytes(r0.1) + Seq::<u8>::empty() =~= data_bytes(r0.1));
    let whole = r1.1 + r2.1;
    let k = r0.1.len() as int;
    assert(whole[k] == RegOp::Write(I2cReg::S, S_ARBL));
}

} // verus!

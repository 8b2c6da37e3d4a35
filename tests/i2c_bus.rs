use k64_hal::gpio::{GpioBank, GpioExt};
use k64_hal::i2c::{
    check_and_clear_error_flags, I2c, I2cError, I2cReg, I2cRegs, Phase, RegOp, WriteTransfer,
    I2C0,
};
use k64_hal::sim::ClockGates;

/// A simulated bus peripheral with one device behind it.
struct Bus {
    regs: I2cRegs,
    /// Bytes that went on the wire, address byte included.
    wire: Vec<u8>,
    /// The device does not acknowledge its address.
    nack_address: bool,
    /// The device does not acknowledge this payload byte.
    nack_byte: Option<usize>,
    /// Another master wins the bus during this payload byte.
    lose_at_byte: Option<usize>,
}

impl Bus {
    fn new() -> Bus {
        Bus { regs: I2cRegs::new(), wire: Vec::new(), nack_address: false, nack_byte: None, lose_at_byte: None }
    }

    fn perform(&mut self, op: &RegOp) {
        self.regs.apply(op);
        match *op {
            RegOp::SetBits(I2cReg::C1, m) if m & 0x20 != 0 => {
                self.regs.s |= 0x20;
                self.regs.flt |= 0x10;
            }
            RegOp::ClearBits(I2cReg::C1, m) if m & 0x20 != 0 => {
                self.regs.s &= !0x20;
                self.regs.flt |= 0x40;
            }
            RegOp::Write(I2cReg::D, v) => {
                let payload_index = self.wire.len().checked_sub(1);
                self.wire.push(v);
                let nack = match payload_index {
                    None => self.nack_address,
                    Some(k) => self.nack_byte == Some(k),
                };
                self.regs.s |= 0x80 | 0x02;
                if nack {
                    self.regs.s |= 0x01;
                } else {
                    self.regs.s &= !0x01;
                }
                if payload_index.is_some() && payload_index == self.lose_at_byte {
                    self.regs.s |= 0x10;
                }
            }
            _ => {}
        }
    }

    /// Runs the transfer to its end; counts the polls made in a payload phase.
    fn run(&mut self, t: &mut WriteTransfer) -> (Result<(), I2cError>, usize) {
        let mut payload_polls = 0;
        for _ in 0..1000 {
            if let Some(outcome) = t.outcome() {
                return (outcome, payload_polls);
            }
            if matches!(t.phase, Phase::ByteReady(_) | Phase::ByteDone(_)) {
                payload_polls += 1;
            }
            let ops = t.step(self.regs.s, self.regs.flt);
            for op in &ops {
                self.perform(op);
            }
        }
        panic!("transfer did not finish");
    }
}

fn driver(bus: &mut Bus) -> I2c<I2C0, (k64_hal::gpio::PE24<k64_hal::gpio::AlternativeOD<k64_hal::gpio::AF5>>, k64_hal::gpio::PE25<k64_hal::gpio::AlternativeOD<k64_hal::gpio::AF5>>)> {
    let mut sim = ClockGates::new();
    let parts = GpioBank::<4>::new().split(&mut sim);
    let mut bank = parts.bank;
    let scl = parts.p24.into_af5_outputdrain(&mut bank);
    let sda = parts.p25.into_af5_outputdrain(&mut bank);
    let (drv, init) = I2c::new(I2C0, (scl, sda), 100_000, &mut sim);
    assert_eq!(sim.scgc4, 1 << 6);
    bus.regs.apply_all(&init);
    drv
}

#[test]
fn construction_configures_the_peripheral() {
    let mut bus = Bus::new();
    bus.regs.a1 = 0x42;
    bus.regs.c1 = 0x30;
    bus.regs.s = 0x80 | 0x10 | 0x02;
    bus.regs.flt = 0x50;
    bus.regs.c2 = 0x11;
    bus.regs.ra = 0x7;
    let _drv = driver(&mut bus);
    assert_eq!(bus.regs.c1, 0x80);
    assert_eq!(bus.regs.f, 44);
    assert_eq!(bus.regs.a1, 0);
    assert_eq!(bus.regs.c2, 0);
    assert_eq!(bus.regs.ra, 0);
    assert_eq!(bus.regs.s, 0x80);
    assert_eq!(bus.regs.flt, 0);
}

#[test]
fn zero_length_write_is_start_address_stop() {
    let mut bus = Bus::new();
    let mut drv = driver(&mut bus);
    let mut t = drv.write(0x50, &[]);
    let (outcome, payload_polls) = bus.run(&mut t);
    assert_eq!(outcome, Ok(()));
    assert_eq!(payload_polls, 0);
    assert_eq!(bus.wire, vec![0xA0]);
    assert_eq!(bus.regs.s & 0x20, 0);
    assert_eq!(bus.regs.c1 & 0x20, 0);
}

#[test]
fn write_sends_every_byte() {
    let mut bus = Bus::new();
    let mut drv = driver(&mut bus);
    let mut t = drv.write(0x1D, &[0x01, 0x80, 0xFF]);
    let (outcome, payload_polls) = bus.run(&mut t);
    assert_eq!(outcome, Ok(()));
    assert!(payload_polls >= 6);
    assert_eq!(bus.wire, vec![0x3A, 0x01, 0x80, 0xFF]);
    assert_eq!(bus.regs.s & 0x20, 0);
}

#[test]
fn unacknowledged_address_reports_nack_and_idles() {
    let mut bus = Bus::new();
    bus.nack_address = true;
    let mut drv = driver(&mut bus);
    let mut t = drv.write(0x50, &[1, 2, 3]);
    let (outcome, payload_polls) = bus.run(&mut t);
    assert_eq!(outcome, Err(I2cError::NACK));
    assert_eq!(payload_polls, 0);
    assert_eq!(bus.wire, vec![0xA0]);
    assert_eq!(bus.regs.s & 0x20, 0);
    assert_eq!(bus.regs.c1 & 0x20, 0);
}

#[test]
fn unacknowledged_payload_byte_aborts_the_rest() {
    let mut bus = Bus::new();
    bus.nack_byte = Some(1);
    let mut drv = driver(&mut bus);
    let mut t = drv.write(0x20, &[10, 11, 12, 13]);
    let (outcome, _) = bus.run(&mut t);
    assert_eq!(outcome, Err(I2cError::NACK));
    assert_eq!(bus.wire, vec![0x40, 10, 11]);
    assert_eq!(bus.regs.s & 0x20, 0);
}

#[test]
fn arbitration_loss_mid_payload() {
    let mut bus = Bus::new();
    bus.lose_at_byte = Some(1);
    let mut drv = driver(&mut bus);
    let mut t = drv.write(0x50, &[0xAA, 0xBB, 0xCC]);
    let (outcome, _) = bus.run(&mut t);
    assert_eq!(outcome, Err(I2cError::ARBITRATION));
    assert_eq!(bus.wire, vec![0xA0, 0xAA, 0xBB]);
    assert_eq!(bus.regs.s & 0x10, 0);
    assert_eq!(bus.regs.s & 0x20, 0);
}

#[test]
fn step_in_payload_with_arbitration_flag() {
    let mut t = WriteTransfer { address: 0x50, bytes: vec![1, 2, 3], phase: Phase::ByteDone(1) };
    let ops = t.step(0x80 | 0x20 | 0x10 | 0x02, 0);
    assert_eq!(t.phase, Phase::Stop(Err(I2cError::ARBITRATION)));
    assert_eq!(ops, vec![RegOp::Write(I2cReg::S, 0x10), RegOp::ClearBits(I2cReg::C1, 0x38)]);
}

#[test]
fn latched_error_is_reported_before_the_start() {
    let mut t = WriteTransfer { address: 0x50, bytes: vec![1], phase: Phase::Start };
    let ops = t.step(0x10, 0);
    assert_eq!(t.phase, Phase::Stop(Err(I2cError::ARBITRATION)));
    assert_eq!(ops, vec![RegOp::Write(I2cReg::S, 0x10), RegOp::ClearBits(I2cReg::C1, 0x38)]);
    let mut t = WriteTransfer { address: 0x50, bytes: vec![1], phase: Phase::Start };
    let _ = t.step(0x01, 0);
    assert_eq!(t.phase, Phase::Stop(Err(I2cError::NACK)));
}

#[test]
fn start_waits_for_transfer_complete() {
    let mut t = WriteTransfer { address: 0x50, bytes: vec![], phase: Phase::Start };
    let ops = t.step(0x00, 0);
    assert!(ops.is_empty());
    assert_eq!(t.phase, Phase::Start);
    let ops = t.step(0x80, 0);
    assert_eq!(t.phase, Phase::AddressAck);
    assert_eq!(ops, vec![RegOp::SetBits(I2cReg::C1, 0x30), RegOp::Write(I2cReg::D, 0xA0)]);
}

#[test]
fn stop_waits_for_idle_bus() {
    let mut t = WriteTransfer { address: 0x50, bytes: vec![], phase: Phase::Stop(Err(I2cError::NACK)) };
    let _ = t.step(0x80 | 0x20 | 0x01, 0);
    assert_eq!(t.phase, Phase::Stop(Err(I2cError::NACK)));
    assert_eq!(t.outcome(), None);
    let _ = t.step(0x80 | 0x01, 0);
    assert_eq!(t.outcome(), Some(Err(I2cError::NACK)));
    let ops = t.step(0x10, 0);
    assert!(ops.is_empty());
    assert_eq!(t.outcome(), Some(Err(I2cError::NACK)));
}

#[test]
fn check_reports_arbitration_and_clears_it() {
    let (r, ops) = check_and_clear_error_flags(0x80 | 0x10 | 0x01, 0x50);
    assert_eq!(r, Err(I2cError::ARBITRATION));
    assert_eq!(ops, vec![RegOp::Write(I2cReg::S, 0x10)]);
    let mut regs = I2cRegs::new();
    regs.s = 0x80 | 0x10 | 0x02;
    regs.apply_all(&ops);
    assert_eq!(regs.s, 0x82);
}

#[test]
fn check_reports_nack() {
    let (r, ops) = check_and_clear_error_flags(0x81, 0x50);
    assert_eq!(r, Err(I2cError::NACK));
    assert!(ops.is_empty());
}

#[test]
fn check_clears_start_and_stop_flags() {
    let (r, ops) = check_and_clear_error_flags(0xA0, 0x50);
    assert_eq!(r, Ok(0xA0));
    assert_eq!(
        ops,
        vec![RegOp::SetBits(I2cReg::Flt, 0x10), RegOp::SetBits(I2cReg::Flt, 0x40)]
    );
    let mut regs = I2cRegs::new();
    regs.flt = 0x50 | 0x83;
    regs.apply_all(&ops);
    assert_eq!(regs.flt, 0x83);
    let (r, ops) = check_and_clear_error_flags(0x80, 0x00);
    assert_eq!(r, Ok(0x80));
    assert!(ops.is_empty());
}

#[test]
fn receive_is_a_placeholder() {
    let mut bus = Bus::new();
    let drv = driver(&mut bus);
    assert_eq!(drv.recv_byte(), Ok(0));
}

#[test]
fn divider_ignores_requested_rate() {
    let mut bus = Bus::new();
    let drv = driver(&mut bus);
    assert_eq!(drv.set_baudrate(400_000), RegOp::WriteField(I2cReg::F, 0x3F, 44));
    assert_eq!(drv.set_baudrate(1), RegOp::WriteField(I2cReg::F, 0x3F, 44));
}

#[test]
fn divider_keeps_the_multiplier_bits() {
    let mut bus = Bus::new();
    let drv = driver(&mut bus);
    bus.regs.f = 0xC0;
    bus.regs.apply(&drv.set_baudrate(100_000));
    assert_eq!(bus.regs.f, 0xC0 | 44);
    bus.regs.f = 0x7F;
    bus.regs.apply(&drv.set_baudrate(100_000));
    assert_eq!(bus.regs.f, 0x40 | 44);
}

#[test]
fn register_writes_follow_hardware_rules() {
    let mut regs = I2cRegs::new();
    assert_eq!(regs.s, 0x80);
    regs.s = 0xFF;
    regs.write(I2cReg::S, 0xFF);
    assert_eq!(regs.s, 0xED);
    regs.write(I2cReg::D, 0x5A);
    assert_eq!(regs.read(I2cReg::D), 0x5A);
    regs.apply(&RegOp::SetBits(I2cReg::C1, 0x30));
    regs.apply(&RegOp::ClearBits(I2cReg::C1, 0x10));
    assert_eq!(regs.c1, 0x20);
    regs.apply(&RegOp::Reset(I2cReg::S));
    assert_eq!(regs.s, 0x80);
}

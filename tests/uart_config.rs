use k64_hal::gpio::{GpioBank, GpioExt};
use k64_hal::sim::ClockGates;
use k64_hal::uart::{
    receive_status, transmit_complete, transmit_ready, BaudRate, Config, Parity, Serial, StopBits,
    UartError, WordLength, UART0,
};

#[test]
fn baud_rate_from_integer() {
    let b: BaudRate = 9600u32.into();
    assert_eq!(b.0, 9600);
}

#[test]
fn divisor_for_common_rates() {
    let c = Config::new(BaudRate(115_200), Parity::ParityNone, WordLength::DataBits8, StopBits::Stop1);
    assert_eq!(c.get_real_baudrate(), Some(12));
    let c = Config::new(BaudRate(9600), Parity::ParityNone, WordLength::DataBits8, StopBits::Stop1);
    assert_eq!(c.get_real_baudrate(), Some(137));
}

#[test]
fn divisor_rejects_zero_and_oversized_rates() {
    let c = Config::new(BaudRate(0), Parity::ParityNone, WordLength::DataBits8, StopBits::Stop1);
    assert_eq!(c.get_real_baudrate(), None);
    assert_eq!(c.register_values(), None);
    let c = Config::new(BaudRate(0x1000_0000), Parity::Even, WordLength::DataBits8, StopBits::Stop1);
    assert_eq!(c.get_real_baudrate(), None);
}

#[test]
fn register_values_for_frame_formats() {
    let c = Config::new(BaudRate(115_200), Parity::ParityNone, WordLength::DataBits8, StopBits::Stop1);
    assert_eq!(c.register_values(), Some((0x00, 12, 0x00)));
    let c = Config::new(BaudRate(115_200), Parity::Odd, WordLength::DataBits9, StopBits::Stop2);
    assert_eq!(c.register_values(), Some((0x20, 12, 0x13)));
    let c = Config::new(BaudRate(1200), Parity::Even, WordLength::DataBits8, StopBits::Stop1);
    // 20971520 / 19200 + 1 = 1093 = 0x445
    assert_eq!(c.register_values(), Some((0x04, 0x45, 0x02)));
}

#[test]
fn serial_takes_pins_and_gives_them_back() {
    let mut sim = ClockGates::new();
    let parts = GpioBank::<1>::new().split(&mut sim);
    let mut bank = parts.bank;
    let tx = parts.p17.into_alternate_af3(&mut bank);
    let rx = parts.p16.into_alternate_af3(&mut bank);
    let serial = Serial::uart0(UART0, (tx, rx), &mut sim);
    assert_eq!(sim.scgc4, 1 << 10);
    let (tx, rx) = serial.relase();
    let serial = Serial::uart0(UART0, (tx, rx), &mut sim);
    let (_tx, _rx) = serial.split();
}

#[test]
fn receive_status_reports_errors_in_order() {
    assert_eq!(receive_status(0x0F | 0x20), Some(Err(UartError::Overrun)));
    assert_eq!(receive_status(0x07 | 0x20), Some(Err(UartError::Framing)));
    assert_eq!(receive_status(0x05 | 0x20), Some(Err(UartError::Noise)));
    assert_eq!(receive_status(0x01 | 0x20), Some(Err(UartError::Parity)));
    assert_eq!(receive_status(0x20 | 0xC0), Some(Ok(())));
    assert_eq!(receive_status(0xC0), None);
}

#[test]
fn transmit_flags() {
    assert!(transmit_ready(0x80));
    assert!(!transmit_ready(0x40));
    assert!(transmit_complete(0x40));
    assert!(!transmit_complete(0x80));
}

#[test]
fn one_direction_serial_ports() {
    let mut sim = ClockGates::new();
    let parts = GpioBank::<1>::new().split(&mut sim);
    let mut bank = parts.bank;
    let tx = parts.p17.into_alternate_af3(&mut bank);
    let rx = parts.p16.into_alternate_af3(&mut bank);
    let serial = Serial::uart0tx(UART0, tx, &mut sim);
    assert_eq!(sim.scgc4, 1 << 10);
    let (_tx, ()) = serial.relase();
    let serial = Serial::uart0rx(UART0, rx, &mut sim);
    let ((), _rx) = serial.relase();
}

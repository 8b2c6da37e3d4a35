//! Serial port: configuration values, pin capabilities and the split into
//! transmit and receive halves.
use core::marker::PhantomData;
use vstd::prelude::*;
use crate::gpio::{Alternative, AF3, PB16, PB17};
use crate::sim::{ClockGates, UART0_GATE_BIT};

verus! {

/// Receive errors of the serial port.
#[derive(Debug, Clone, Copy, PartialEq, Eq, Structural)]
pub enum UartError {
    Framing,
    Noise,
    Overrun,
    Parity,
}

/// Bit rate in bits per second.
pub struct BaudRate(pub u32);

impl From<u32> for BaudRate {
    fn from(v: u32) -> (r: BaudRate) {
        BaudRate(v)
    }
}

impl vstd::std_specs::convert::FromSpecImpl<u32> for BaudRate {
    open spec fn obeys_from_spec() -> bool {
        true
    }

    open spec fn from_spec(v: u32) -> BaudRate {
        BaudRate(v)
    }
}

/// Data bits per frame.
#[derive(Debug, Clone, Copy, PartialEq, Eq, Structural, PartialOrd)]
pub enum WordLength {
    DataBits8,
    DataBits9,
}

/// Parity bit of a frame.
#[derive(Debug, Clone, Copy, PartialEq, Eq, Structural, PartialOrd)]
pub enum Parity {
    ParityNone,
    Even,
    Odd,
}

/// Stop bits of a frame.
#[derive(Debug, Clone, Copy, PartialEq, Eq, Structural, PartialOrd)]
pub enum StopBits {
    Stop1,
    Stop2,
}

/// Line settings of a serial port.
pub struct Config {
    baudrate: BaudRate,
    word_length: WordLength,
    parity: Parity,
    stop_bits: StopBits,
}

/// Module clock of the serial port, in Hz.
pub const UART_CLOCK: u32 = 20_971_520;

/// Baud-rate divisor for `baud`: the module clock over sixteen times the
/// rate, plus one.
pub open spec fn divisor_spec(baud: u32) -> int {
    UART_CLOCK as int / (baud as int * 16) + 1
}

/// Values of the baud-rate high and low registers and of control
/// register 1 for the divisor `sbr` and the given frame format: the divisor's
/// bits 12:8 and the two-stop-bit flag (bit 5), its bits 7:0, and the
/// nine-bit (bit 4), parity-enable (bit 1) and odd-parity (bit 0) flags.
pub open spec fn register_values_spec(
    sbr: u32,
    word_length: WordLength,
    parity: Parity,
    stop_bits: StopBits,
) -> (u8, u8, u8) {
    (
        ((((sbr & 0x1F00u32) >> 8u32) as u8) | if stop_bits == StopBits::Stop2 {
            0x20u8
        } else {
            0u8
        }),
        (sbr & 0xFFu32) as u8,
        ((if word_length == WordLength::DataBits9 {
            0x10u8
        } else {
            0u8
        }) | (if parity != Parity::ParityNone {
            0x02u8
        } else {
            0u8
        }) | (if parity == Parity::Odd {
            0x01u8
        } else {
            0u8
        })),
    )
}

impl Config {
    pub closed spec fn baud_spec(&self) -> u32 {
        self.baudrate.0
    }

    pub closed spec fn word_length_spec(&self) -> WordLength {
        self.word_length
    }

    pub closed spec fn parity_spec(&self) -> Parity {
        self.parity
    }

    pub closed spec fn stop_bits_spec(&self) -> StopBits {
        self.stop_bits
    }

    pub fn new(baudrate: BaudRate, parity: Parity, word_length: WordLength, stop_bits: StopBits) -> (r: Config)
        ensures
            r.baud_spec() == baudrate.0,
            r.parity_spec() == parity,
            r.word_length_spec() == word_length,
            r.stop_bits_spec() == stop_bits,
    {
        Config { baudrate, parity, word_length, stop_bits }
    }

    /// The baud-rate divisor, or `None` for a rate of zero or one whose
    /// sixteenfold does not fit in 32 bits.
    pub fn get_real_baudrate(&self) -> (r: Option<u32>)
        ensures
            r == (if 0 < self.baud_spec() <= 0x0FFF_FFFF {
                Some(divisor_spec(self.baud_spec()) as u32)
            } else {
                None::<u32>
            }),
    {
        let b = self.baudrate.0;
        if b == 0 || b > 0x0FFF_FFFF {
            return None;
        }
        let q = UART_CLOCK / (b * 16);
        proof {
            assert(q <= UART_CLOCK) by (nonlinear_arith)
                requires
                    q == UART_CLOCK as int / (b as int * 16),
                    b >= 1,
            ;
        }
        Some(q + 1)
    }

    /// Register values that configure the port for these settings (see
    /// [`register_values_spec`]), or `None` where the rate has no divisor.
    pub fn register_values(&self) -> (r: Option<(u8, u8, u8)>)
        ensures
            r == (if 0 < self.baud_spec() <= 0x0FFF_FFFF {
                Some(
                    register_values_spec(
                        divisor_spec(self.baud_spec()) as u32,
                        self.word_length_spec(),
                        self.parity_spec(),
                        self.stop_bits_spec(),
                    ),
                )
            } else {
                None::<(u8, u8, u8)>
            }),
    {
        let sbr = match self.get_real_baudrate() {
            Some(v) => v,
            None => return None,
        };
        let stop2: u8 = if self.stop_bits == StopBits::Stop2 { 0x20 } else { 0 };
        let bdh = (((sbr & 0x1F00u32) >> 8u32) as u8) | stop2;
        let bdl = (sbr & 0xFFu32) as u8;
        let m: u8 = if self.word_length == WordLength::DataBits9 { 0x10 } else { 0 };
        let pe: u8 = if self.parity != Parity::ParityNone { 0x02 } else { 0 };
        let pt: u8 = if self.parity == Parity::Odd { 0x01 } else { 0 };
        Some((bdh, bdl, m | pe | pt))
    }
}

/// Pin that may serve as receive line of port `UART`.
pub trait RxPin<UART> {}

/// Pin that may serve as transmit line of port `UART`.
pub trait TxPin<UART> {}

impl TxPin<UART0> for PB17<Alternative<AF3>> {}

impl RxPin<UART0> for PB16<Alternative<AF3>> {}

/// Handle of the serial port UART0.
pub struct UART0;

/// Receive half of a serial port.
pub struct Rx<UART> {
    _instance: PhantomData<UART>,
}

/// Transmit half of a serial port.
pub struct Tx<UART> {
    _instance: PhantomData<UART>,
}

/// A serial port with its transmit and receive pins.
pub struct Serial<UART, TXPIN, RXPIN> {
    uart: UART,
    pins: (TXPIN, RXPIN),
}

impl<UART, TXPIN, RXPIN> Serial<UART, TXPIN, RXPIN> {
    pub closed spec fn pins_spec(&self) -> (TXPIN, RXPIN) {
        self.pins
    }

    /// Splits the port into its transmit and receive halves.
    pub fn split(self) -> (r: (Tx<UART>, Rx<UART>))
        where
            TXPIN: TxPin<UART>,
            RXPIN: RxPin<UART>,
    {
        (Tx { _instance: PhantomData }, Rx { _instance: PhantomData })
    }

    /// Gives back the pins.
    pub fn relase(self) -> (r: (TXPIN, RXPIN))
        ensures
            r == self.pins_spec(),
    {
        self.pins
    }
}

impl<TXPIN, RXPIN> Serial<UART0, TXPIN, RXPIN> where TXPIN: TxPin<UART0>, RXPIN: RxPin<UART0> {
    /// Takes the port and its pins and opens the port's clock gate; the
    /// settings are programmed from [`Config::register_values`].
    pub fn uart0(uart: UART0, pins: (TXPIN, RXPIN), sim: &mut ClockGates) -> (r: Self)
        ensures
            r.pins_spec() == pins,
            final(sim).scgc4 == old(sim).scgc4 | (1u32 << UART0_GATE_BIT),
            final(sim).scgc5 == old(sim).scgc5,
    {
        sim.enable_scgc4(UART0_GATE_BIT);
        Serial { uart, pins }
    }
}

impl<TXPIN> Serial<UART0, TXPIN, ()> where TXPIN: TxPin<UART0> {
    /// Takes the port and a transmit pin only, and opens the port's clock gate.
    pub fn uart0tx(uart: UART0, txpin: TXPIN, sim: &mut ClockGates) -> (r: Self)
        ensures
            r.pins_spec() == (txpin, ()),
            final(sim).scgc4 == old(sim).scgc4 | (1u32 << UART0_GATE_BIT),
            final(sim).scgc5 == old(sim).scgc5,
    {
        sim.enable_scgc4(UART0_GATE_BIT);
        Serial { uart, pins: (txpin, ()) }
    }
}

impl<RXPIN> Serial<UART0, (), RXPIN> where RXPIN: RxPin<UART0> {
    /// Takes the port and a receive pin only, and opens the port's clock gate.
    pub fn uart0rx(uart: UART0, rxpin: RXPIN, sim: &mut ClockGates) -> (r: Self)
        ensures
            r.pins_spec() == ((), rxpin),
            final(sim).scgc4 == old(sim).scgc4 | (1u32 << UART0_GATE_BIT),
            final(sim).scgc5 == old(sim).scgc5,
    {
        sim.enable_scgc4(UART0_GATE_BIT);
        Serial { uart, pins: ((), rxpin) }
    }
}

/// Receive data register full, bit 5 of status register 1.
pub const S1_RDRF: u8 = 0x20;
/// Receiver overrun, bit 3 of status register 1.
pub const S1_OR: u8 = 0x08;
/// Noise flag, bit 2 of status register 1.
pub const S1_NF: u8 = 0x04;
/// Framing error, bit 1 of status register 1.
pub const S1_FE: u8 = 0x02;
/// Parity error, bit 0 of status register 1.
pub const S1_PF: u8 = 0x01;
/// Transmit data register empty, bit 7 of status register 1.
pub const S1_TDRE: u8 = 0x80;
/// Transmission complete, bit 6 of status register 1.
pub const S1_TC: u8 = 0x40;

/// What status register 1 says of the receiver: an error, in the order
/// overrun, framing, noise, parity; else a byte waiting (`Ok`); else nothing
/// yet (`None`).
pub open spec fn receive_status_spec(s1: u8) -> Option<Result<(), UartError>> {
    if s1 & S1_OR != 0 {
        Some(Err(UartError::Overrun))
    } else if s1 & S1_FE != 0 {
        Some(Err(UartError::Framing))
    } else if s1 & S1_NF != 0 {
        Some(Err(UartError::Noise))
    } else if s1 & S1_PF != 0 {
        Some(Err(UartError::Parity))
    } else if s1 & S1_RDRF != 0 {
        Some(Ok(()))
    } else {
        None
    }
}

/// Decodes status register 1 for a read: see [`receive_status_spec`].
pub fn receive_status(s1: u8) -> (r: Option<Result<(), UartError>>)
    ensures
        r == receive_status_spec(s1),
{
    if s1 & S1_OR != 0 {
        Some(Err(UartError::Overrun))
    } else if s1 & S1_FE != 0 {
        Some(Err(UartError::Framing))
    } else if s1 & S1_NF != 0 {
        Some(Err(UartError::Noise))
    } else if s1 & S1_PF != 0 {
        Some(Err(UartError::Parity))
    } else if s1 & S1_RDRF != 0 {
        Some(Ok(()))
    } else {
        None
    }
}

/// A byte may be written to the data register.
pub fn transmit_ready(s1: u8) -> (r: bool)
    ensures
        r == (s1 & S1_TDRE != 0),
{
    s1 & S1_TDRE != 0
}

/// Every written byte has left the transmitter.
pub fn transmit_complete(s1: u8) -> (r: bool)
    ensures
        r == (s1 & S1_TC != 0),
{
    s1 & S1_TC != 0
}

} // verus!

//! Digital I/O pins: mode markers, bank register models, typed pins whose
//! mode lives in their type, and erased pins whose bit index is a value.
use core::marker::PhantomData;
use vstd::prelude::*;
use crate::bits::{
    bit32, clear_bit32, lemma_clear_bit32, lemma_clear_bit32_idempotent, lemma_set_bit32,
    lemma_set_bit32_idempotent, lemma_set_clear_commute32, set_bit32,
};
use crate::sim::{port_gate_bit, ClockGates};

verus! {

/// Alternate function 0 of the pin multiplexer.
pub struct AF0;

/// Alternate function 1 of the pin multiplexer (GPIO on this part).
pub struct AF1;

/// Alternate function 2 of the pin multiplexer.
pub struct AF2;

/// Alternate function 3 of the pin multiplexer.
pub struct AF3;

/// Alternate function 4 of the pin multiplexer.
pub struct AF4;

/// Alternate function 5 of the pin multiplexer.
pub struct AF5;

/// Alternate function 6 of the pin multiplexer.
pub struct AF6;

/// Alternate function 7 of the pin multiplexer.
pub struct AF7;

/// Input without pull resistor.
pub struct Floating;

/// Input with pull-down resistor.
pub struct PullDown;

/// Input with pull-up resistor.
pub struct PullUp;

/// Output driven both ways.
pub struct PushPull;

/// Output that can only pull low.
pub struct OpenDrain;

/// Alternate function with open-drain signalling.
pub struct AlternativeOD<MODE> {
    _mode: PhantomData<MODE>,
}

/// Input mode, with a pull configuration.
pub struct Input<MODE> {
    _mode: PhantomData<MODE>,
}

/// Output mode, with a drive configuration.
pub struct Output<MODE> {
    _mode: PhantomData<MODE>,
}

/// Alternate function mode.
pub struct Alternative<AF> {
    _mode: PhantomData<AF>,
}

/// Multiplexer code that routes a pin to the GPIO block.
pub const MUX_GPIO: u32 = 1;

/// Multiplexer code that disconnects a pin (analog / disabled).
pub const MUX_DISABLED: u32 = 0;

/// Mask of the multiplexer field, bits 10:8 of a pin control register.
pub const PCR_MUX_MASK: u32 = 0x700;

/// Open-drain enable, bit 5 of a pin control register.
pub const PCR_ODE: u32 = 0x20;

/// Open-drain enabled with the pull-up resistor selected and enabled.
pub const PCR_OPEN_DRAIN_PULL_UP: u32 = 0x23;

/// Multiplexer field of a pin control register value.
pub open spec fn mux_of(pcr: u32) -> u32 {
    (pcr >> 8u32) & 7u32
}

/// Open-drain enable bit of a pin control register value.
pub open spec fn open_drain_of(pcr: u32) -> bool {
    bit32(pcr, 5)
}

/// `pcr` with its multiplexer field replaced by `mux`.
pub open spec fn with_mux(pcr: u32, mux: u32) -> u32 {
    (pcr & !0x700u32) | (mux << 8u32)
}

/// Control value of a pin in GPIO push-pull use.
pub open spec fn gpio_push_pull(pcr: u32) -> u32 {
    with_mux(pcr & !0x20u32, 1)
}

/// Control value of a pin in GPIO open-drain use.
pub open spec fn gpio_open_drain(pcr: u32) -> u32 {
    with_mux(pcr, 1) | 0x20u32
}

/// Control value of a pin in alternate function `mux` with open-drain signalling.
pub open spec fn alternate_open_drain(mux: u32) -> u32 {
    (mux << 8u32) | 0x23u32
}

/// Output register value after driving bit `i` to `high`.
pub open spec fn drive(pdor: u32, i: u32, high: bool) -> u32 {
    if high {
        set_bit32(pdor, i)
    } else {
        clear_bit32(pdor, i)
    }
}

proof fn lemma_pcr_fields(pcr: u32, mux: u32)
    requires
        mux < 8,
    ensures
        mux_of(with_mux(pcr, mux)) == mux,
        open_drain_of(with_mux(pcr, mux)) == open_drain_of(pcr),
        mux_of(gpio_push_pull(pcr)) == 1,
        !open_drain_of(gpio_push_pull(pcr)),
        mux_of(gpio_open_drain(pcr)) == 1,
        open_drain_of(gpio_open_drain(pcr)),
        mux_of(alternate_open_drain(mux)) == mux,
        open_drain_of(alternate_open_drain(mux)),
{
    assert(((((pcr & !0x700u32) | (mux << 8u32)) >> 8u32) & 7u32) == mux) by (bit_vector)
        requires
            mux < 8,
    ;
    assert(((((pcr & !0x700u32) | (mux << 8u32)) >> 5u32) & 1u32 == 1u32) == ((pcr >> 5u32)
        & 1u32 == 1u32)) by (bit_vector)
        requires
            mux < 8,
    ;
    assert((((((pcr & !0x20u32) & !0x700u32) | (1u32 << 8u32)) >> 8u32) & 7u32) == 1u32)
        by (bit_vector);
    assert(!(((((pcr & !0x20u32) & !0x700u32) | (1u32 << 8u32)) >> 5u32) & 1u32 == 1u32))
        by (bit_vector);
    assert((((((pcr & !0x700u32) | (1u32 << 8u32)) | 0x20u32) >> 8u32) & 7u32) == 1u32)
        by (bit_vector);
    assert(((((pcr & !0x700u32) | (1u32 << 8u32)) | 0x20u32) >> 5u32) & 1u32 == 1u32)
        by (bit_vector);
    assert(((((mux << 8u32) | 0x23u32) >> 8u32) & 7u32) == mux) by (bit_vector)
        requires
            mux < 8,
    ;
    assert((((mux << 8u32) | 0x23u32) >> 5u32) & 1u32 == 1u32) by (bit_vector);
}

/// Register model of one bank: the port's 32 pin control registers and the
/// GPIO block's output, direction and input state.
pub struct GpioBank<const P: u8> {
    /// Pin control registers PCR0 to PCR31.
    pub pcr: Vec<u32>,
    /// Port data output register.
    pub pdor: u32,
    /// Port data direction register: a set bit makes the pin an output.
    pub pddr: u32,
    /// Levels that the outside world applies to the pins.
    pub external: u32,
}

impl<const P: u8> GpioBank<P> {
    /// Banks A to E exist, each with 32 pin control registers.
    pub open spec fn wf(&self) -> bool {
        P < 5 && self.pcr@.len() == 32
    }

    pub open spec fn is_output(&self, i: u32) -> bool {
        bit32(self.pddr, i)
    }

    pub open spec fn is_open_drain(&self, i: u32) -> bool {
        open_drain_of(self.pcr@[i as int])
    }

    pub open spec fn mux(&self, i: u32) -> u32 {
        mux_of(self.pcr@[i as int])
    }

    /// Level of pin `i` as the data input register reports it: the driven
    /// level of a push-pull output, the wired-and of driven and outside level
    /// of an open-drain output, and the outside level of an input.
    pub open spec fn level(&self, i: u32) -> bool {
        if self.is_output(i) {
            if self.is_open_drain(i) {
                bit32(self.pdor, i) && bit32(self.external, i)
            } else {
                bit32(self.pdor, i)
            }
        } else {
            bit32(self.external, i)
        }
    }

    /// `next` is this bank with pin control register `i` set to `v`.
    pub open spec fn pcr_written(&self, next: &Self, i: u32, v: u32) -> bool {
        &&& next.pcr@ == self.pcr@.update(i as int, v)
        &&& next.pdor == self.pdor
        &&& next.pddr == self.pddr
        &&& next.external == self.external
    }

    /// `next` is this bank with the output register set to `pdor`.
    pub open spec fn pdor_written(&self, next: &Self, pdor: u32) -> bool {
        &&& next.pcr@ == self.pcr@
        &&& next.pdor == pdor
        &&& next.pddr == self.pddr
        &&& next.external == self.external
    }

    /// Power-on state: every pin an input, disconnected, driving low.
    pub fn new() -> (r: Self)
        requires
            P < 5,
        ensures
            r.wf(),
            r.pdor == 0,
            r.pddr == 0,
            r.external == 0,
            forall|i: int| 0 <= i < 32 ==> r.pcr@[i] == 0,
    {
        let mut pcr: Vec<u32> = Vec::new();
        let mut k: usize = 0;
        while k < 32
            invariant
                k <= 32,
                pcr@.len() == k,
                forall|i: int| 0 <= i < k ==> pcr@[i] == 0,
            decreases 32 - k,
        {
            pcr.push(0);
            k = k + 1;
        }
        GpioBank { pcr, pdor: 0, pddr: 0, external: 0 }
    }

    /// Sets the levels that the outside world applies to the pins.
    pub fn apply_external(&mut self, levels: u32)
        ensures
            final(self).external == levels,
            final(self).pcr@ == old(self).pcr@,
            final(self).pdor == old(self).pdor,
            final(self).pddr == old(self).pddr,
    {
        self.external = levels;
    }

    /// Bit `i` of the data input register.
    pub fn read_input(&self, i: u8) -> (r: bool)
        requires
            self.wf(),
            i < 32,
        ensures
            r == self.level(i as u32),
    {
        let b: u32 = i as u32;
        let ext = (self.external >> b) & 1u32 == 1u32;
        if (self.pddr >> b) & 1u32 == 1u32 {
            let driven = (self.pdor >> b) & 1u32 == 1u32;
            if (self.pcr[i as usize] >> 5u32) & 1u32 == 1u32 {
                driven && ext
            } else {
                driven
            }
        } else {
            ext
        }
    }

    /// Write of a single bit to the set-output register: bit `i` of the
    /// output register becomes 1 and no other bit changes.
    pub fn write_set_output(&mut self, i: u8)
        requires
            i < 32,
        ensures
            old(self).pdor_written(final(self), set_bit32(old(self).pdor, i as u32)),
    {
        self.pdor = self.pdor | (1u32 << (i as u32));
    }

    /// Write of a single bit to the clear-output register: bit `i` of the
    /// output register becomes 0 and no other bit changes.
    pub fn write_clear_output(&mut self, i: u8)
        requires
            i < 32,
        ensures
            old(self).pdor_written(final(self), clear_bit32(old(self).pdor, i as u32)),
    {
        self.pdor = self.pdor & !(1u32 << (i as u32));
    }

    /// Makes pin `i` an output; the other direction bits keep their value.
    pub fn set_direction_output(&mut self, i: u8)
        requires
            i < 32,
        ensures
            final(self).pddr == set_bit32(old(self).pddr, i as u32),
            final(self).pcr@ == old(self).pcr@,
            final(self).pdor == old(self).pdor,
            final(self).external == old(self).external,
    {
        self.pddr = self.pddr | (1u32 << (i as u32));
    }

    /// Writes pin control register `i`.
    pub fn write_pcr(&mut self, i: u8, v: u32)
        requires
            old(self).wf(),
            i < 32,
        ensures
            final(self).wf(),
            old(self).pcr_written(final(self), i as u32, v),
    {
        self.pcr.set(i as usize, v);
    }

    /// Read-modify-write of the multiplexer field of pin control register `i`.
    pub fn set_mux(&mut self, i: u8, mux: u32)
        requires
            old(self).wf(),
            i < 32,
            mux < 8,
        ensures
            final(self).wf(),
            old(self).pcr_written(final(self), i as u32, with_mux(old(self).pcr@[i as int], mux)),
            final(self).mux(i as u32) == mux,
    {
        let v = (self.pcr[i as usize] & !PCR_MUX_MASK) | (mux << 8u32);
        proof {
            lemma_pcr_fields(self.pcr@[i as int], mux);
        }
        self.write_pcr(i, v);
    }
}

/// A pin of bank `P` at bit index `N`, in the mode given by `MODE`. A value
/// of this type is the exclusive handle of that pin; a mode change consumes it.
///
/// Every operation takes the bank's register model. Mode changes rewrite a
/// control register that neighbouring pins share; the `&mut` borrow of the
/// bank keeps any other holder from changing the model meanwhile. Writing
/// the model out to the hardware needs its own exclusion.
pub struct GpioPin<const P: u8, const N: u8, MODE> {
    _mode: PhantomData<MODE>,
}

impl<const P: u8, const N: u8, MODE> GpioPin<P, N, MODE> {
    #[verifier::type_invariant]
    spec fn inv(&self) -> bool {
        N < 32
    }

    fn retype<NEW>(self) -> (r: GpioPin<P, N, NEW>) {
        proof {
            use_type_invariant(&self);
        }
        GpioPin { _mode: PhantomData }
    }

    fn set_alternate_function(&self, bank: &mut GpioBank<P>, mode: u32)
        requires
            old(bank).wf(),
            mode < 8,
        ensures
            final(bank).wf(),
            old(bank).pcr_written(
                final(bank),
                N as u32,
                with_mux(old(bank).pcr@[N as int], mode),
            ),
            final(bank).mux(N as u32) == mode,
    {
        proof {
            use_type_invariant(self);
        }
        bank.set_mux(N, mode);
    }

    fn set_open_drain_function(&self, bank: &mut GpioBank<P>, mode: u32)
        requires
            old(bank).wf(),
            mode < 8,
        ensures
            final(bank).wf(),
            old(bank).pcr_written(final(bank), N as u32, alternate_open_drain(mode)),
            final(bank).mux(N as u32) == mode,
            final(bank).is_open_drain(N as u32),
    {
        proof {
            use_type_invariant(self);
            lemma_pcr_fields(0, mode);
        }
        bank.write_pcr(N, (mode << 8u32) | PCR_OPEN_DRAIN_PULL_UP);
    }

    /// Routes the pin to the GPIO block; the mode in its type is kept.
    pub fn enable(self, bank: &mut GpioBank<P>) -> (r: Self)
        requires
            old(bank).wf(),
        ensures
            final(bank).wf(),
            old(bank).pcr_written(final(bank), N as u32, with_mux(old(bank).pcr@[N as int], 1)),
            final(bank).mux(N as u32) == MUX_GPIO,
    {
        self.set_alternate_function(bank, MUX_GPIO);
        self
    }

    /// Disconnects the pin; the mode in its type is kept.
    pub fn disable(self, bank: &mut GpioBank<P>) -> (r: Self)
        requires
            old(bank).wf(),
        ensures
            final(bank).wf(),
            old(bank).pcr_written(final(bank), N as u32, with_mux(old(bank).pcr@[N as int], 0)),
            final(bank).mux(N as u32) == MUX_DISABLED,
    {
        self.set_alternate_function(bank, MUX_DISABLED);
        self
    }

    /// Routes the pin to alternate function 0.
    pub fn into_alternate_af0(self, bank: &mut GpioBank<P>) -> (r: GpioPin<P, N, Alternative<AF0>>)
        requires
            old(bank).wf(),
        ensures
            final(bank).wf(),
            old(bank).pcr_written(final(bank), N as u32, with_mux(old(bank).pcr@[N as int], 0)),
            final(bank).mux(N as u32) == 0,
    {
        self.set_alternate_function(bank, 0);
        self.retype()
    }

    /// Routes the pin to alternate function 1.
    pub fn into_alternate_af1(self, bank: &mut GpioBank<P>) -> (r: GpioPin<P, N, Alternative<AF1>>)
        requires
            old(bank).wf(),
        ensures
            final(bank).wf(),
            old(bank).pcr_written(final(bank), N as u32, with_mux(old(bank).pcr@[N as int], 1)),
            final(bank).mux(N as u32) == 1,
    {
        self.set_alternate_function(bank, 1);
        self.retype()
    }

    /// Routes the pin to alternate function 2.
    pub fn into_alternate_af2(self, bank: &mut GpioBank<P>) -> (r: GpioPin<P, N, Alternative<AF2>>)
        requires
            old(bank).wf(),
        ensures
            final(bank).wf(),
            old(bank).pcr_written(final(bank), N as u32, with_mux(old(bank).pcr@[N as int], 2)),
            final(bank).mux(N as u32) == 2,
    {
        self.set_alternate_function(bank, 2);
        self.retype()
    }

    /// Routes the pin to alternate function 3.
    pub fn into_alternate_af3(self, bank: &mut GpioBank<P>) -> (r: GpioPin<P, N, Alternative<AF3>>)
        requires
            old(bank).wf(),
        ensures
            final(bank).wf(),
            old(bank).pcr_written(final(bank), N as u32, with_mux(old(bank).pcr@[N as int], 3)),
            final(bank).mux(N as u32) == 3,
    {
        self.set_alternate_function(bank, 3);
        self.retype()
    }

    /// Routes the pin to alternate function 4.
    pub fn into_alternate_af4(self, bank: &mut GpioBank<P>) -> (r: GpioPin<P, N, Alternative<AF4>>)
        requires
            old(bank).wf(),
        ensures
            final(bank).wf(),
            old(bank).pcr_written(final(bank), N as u32, with_mux(old(bank).pcr@[N as int], 4)),
            final(bank).mux(N as u32) == 4,
    {
        self.set_alternate_function(bank, 4);
        self.retype()
    }

    /// Routes the pin to alternate function 5.
    pub fn into_alternate_af5(self, bank: &mut GpioBank<P>) -> (r: GpioPin<P, N, Alternative<AF5>>)
        requires
            old(bank).wf(),
        ensures
            final(bank).wf(),
            old(bank).pcr_written(final(bank), N as u32, with_mux(old(bank).pcr@[N as int], 5)),
            final(bank).mux(N as u32) == 5,
    {
        self.set_alternate_function(bank, 5);
        self.retype()
    }

    /// Routes the pin to alternate function 6.
    pub fn into_alternate_af6(self, bank: &mut GpioBank<P>) -> (r: GpioPin<P, N, Alternative<AF6>>)
        requires
            old(bank).wf(),
        ensures
            final(bank).wf(),
            old(bank).pcr_written(final(bank), N as u32, with_mux(old(bank).pcr@[N as int], 6)),
            final(bank).mux(N as u32) == 6,
    {
        self.set_alternate_function(bank, 6);
        self.retype()
    }

    /// Routes the pin to alternate function 7.
    pub fn into_alternate_af7(self, bank: &mut GpioBank<P>) -> (r: GpioPin<P, N, Alternative<AF7>>)
        requires
            old(bank).wf(),
        ensures
            final(bank).wf(),
            old(bank).pcr_written(final(bank), N as u32, with_mux(old(bank).pcr@[N as int], 7)),
            final(bank).mux(N as u32) == 7,
    {
        self.set_alternate_function(bank, 7);
        self.retype()
    }

    /// Routes the pin to alternate function 0 with open-drain signalling and
    /// the pull-up enabled.
    pub fn into_af0_outputdrain(self, bank: &mut GpioBank<P>) -> (r: GpioPin<P, N, AlternativeOD<AF0>>)
        requires
            old(bank).wf(),
        ensures
            final(bank).wf(),
            old(bank).pcr_written(final(bank), N as u32, alternate_open_drain(0)),
            final(bank).mux(N as u32) == 0,
            final(bank).is_open_drain(N as u32),
    {
        self.set_open_drain_function(bank, 0);
        self.retype()
    }

    /// Routes the pin to alternate function 1 with open-drain signalling and
    /// the pull-up enabled.
    pub fn into_af1_outputdrain(self, bank: &mut GpioBank<P>) -> (r: GpioPin<P, N, AlternativeOD<AF1>>)
        requires
            old(bank).wf(),
        ensures
            final(bank).wf(),
            old(bank).pcr_written(final(bank), N as u32, alternate_open_drain(1)),
            final(bank).mux(N as u32) == 1,
            final(bank).is_open_drain(N as u32),
    {
        self.set_open_drain_function(bank, 1);
        self.retype()
    }

    /// Routes the pin to alternate function 2 with open-drain signalling and
    /// the pull-up enabled.
    pub fn into_af2_outputdrain(self, bank: &mut GpioBank<P>) -> (r: GpioPin<P, N, AlternativeOD<AF2>>)
        requires
            old(bank).wf(),
        ensures
            final(bank).wf(),
            old(bank).pcr_written(final(bank), N as u32, alternate_open_drain(2)),
            final(bank).mux(N as u32) == 2,
            final(bank).is_open_drain(N as u32),
    {
        self.set_open_drain_function(bank, 2);
        self.retype()
    }

    /// Routes the pin to alternate function 3 with open-drain signalling and
    /// the pull-up enabled.
    pub fn into_af3_outputdrain(self, bank: &mut GpioBank<P>) -> (r: GpioPin<P, N, AlternativeOD<AF3>>)
        requires
            old(bank).wf(),
        ensures
            final(bank).wf(),
            old(bank).pcr_written(final(bank), N as u32, alternate_open_drain(3)),
            final(bank).mux(N as u32) == 3,
            final(bank).is_open_drain(N as u32),
    {
        self.set_open_drain_function(bank, 3);
        self.retype()
    }

    /// Routes the pin to alternate function 4 with open-drain signalling and
    /// the pull-up enabled.
    pub fn into_af4_outputdrain(self, bank: &mut GpioBank<P>) -> (r: GpioPin<P, N, AlternativeOD<AF4>>)
        requires
            old(bank).wf(),
        ensures
            final(bank).wf(),
            old(bank).pcr_written(final(bank), N as u32, alternate_open_drain(4)),
            final(bank).mux(N as u32) == 4,
            final(bank).is_open_drain(N as u32),
    {
        self.set_open_drain_function(bank, 4);
        self.retype()
    }

    /// Routes the pin to alternate function 5 with open-drain signalling and
    /// the pull-up enabled.
    pub fn into_af5_outputdrain(self, bank: &mut GpioBank<P>) -> (r: GpioPin<P, N, AlternativeOD<AF5>>)
        requires
            old(bank).wf(),
        ensures
            final(bank).wf(),
            old(bank).pcr_written(final(bank), N as u32, alternate_open_drain(5)),
            final(bank).mux(N as u32) == 5,
            final(bank).is_open_drain(N as u32),
    {
        self.set_open_drain_function(bank, 5);
        self.retype()
    }

    /// Routes the pin to alternate function 6 with open-drain signalling and
    /// the pull-up enabled.
    pub fn into_af6_outputdrain(self, bank: &mut GpioBank<P>) -> (r: GpioPin<P, N, AlternativeOD<AF6>>)
        requires
            old(bank).wf(),
        ensures
            final(bank).wf(),
            old(bank).pcr_written(final(bank), N as u32, alternate_open_drain(6)),
            final(bank).mux(N as u32) == 6,
            final(bank).is_open_drain(N as u32),
    {
        self.set_open_drain_function(bank, 6);
        self.retype()
    }

    /// Routes the pin to alternate function 7 with open-drain signalling and
    /// the pull-up enabled.
    pub fn into_af7_outputdrain(self, bank: &mut GpioBank<P>) -> (r: GpioPin<P, N, AlternativeOD<AF7>>)
        requires
            old(bank).wf(),
        ensures
            final(bank).wf(),
            old(bank).pcr_written(final(bank), N as u32, alternate_open_drain(7)),
            final(bank).mux(N as u32) == 7,
            final(bank).is_open_drain(N as u32),
    {
        self.set_open_drain_function(bank, 7);
        self.retype()
    }

    /// Makes the pin a push-pull GPIO output.
    pub fn into_output(self, bank: &mut GpioBank<P>) -> (r: GpioPin<P, N, Output<PushPull>>)
        requires
            old(bank).wf(),
        ensures
            final(bank).wf(),
            final(bank).pcr@ == old(bank).pcr@.update(N as int, gpio_push_pull(old(bank).pcr@[N as int])),
            final(bank).pddr == set_bit32(old(bank).pddr, N as u32),
            final(bank).pdor == old(bank).pdor,
            final(bank).external == old(bank).external,
            final(bank).mux(N as u32) == MUX_GPIO,
            final(bank).is_output(N as u32),
            !final(bank).is_open_drain(N as u32),
    {
        proof {
            use_type_invariant(&self);
            lemma_pcr_fields(bank.pcr@[N as int], 1);
            lemma_set_bit32(bank.pddr, N as u32, N as u32);
        }
        let v = ((bank.pcr[N as usize] & !PCR_ODE) & !PCR_MUX_MASK) | (MUX_GPIO << 8u32);
        bank.write_pcr(N, v);
        bank.set_direction_output(N);
        self.retype()
    }

    /// Makes the pin an open-drain GPIO output.
    pub fn into_open_drain(self, bank: &mut GpioBank<P>) -> (r: GpioPin<P, N, Output<OpenDrain>>)
        requires
            old(bank).wf(),
        ensures
            final(bank).wf(),
            final(bank).pcr@ == old(bank).pcr@.update(N as int, gpio_open_drain(old(bank).pcr@[N as int])),
            final(bank).pddr == set_bit32(old(bank).pddr, N as u32),
            final(bank).pdor == old(bank).pdor,
            final(bank).external == old(bank).external,
            final(bank).mux(N as u32) == MUX_GPIO,
            final(bank).is_output(N as u32),
            final(bank).is_open_drain(N as u32),
    {
        proof {
            use_type_invariant(&self);
            lemma_pcr_fields(bank.pcr@[N as int], 1);
            lemma_set_bit32(bank.pddr, N as u32, N as u32);
        }
        let v = ((bank.pcr[N as usize] & !PCR_MUX_MASK) | (MUX_GPIO << 8u32)) | PCR_ODE;
        bank.write_pcr(N, v);
        bank.set_direction_output(N);
        self.retype()
    }
}

impl<const P: u8, const N: u8, MODE> GpioPin<P, N, Output<MODE>> {
    /// Drives the pin high through the set-output register.
    pub fn set_high(&mut self, bank: &mut GpioBank<P>)
        ensures
            old(bank).pdor_written(final(bank), set_bit32(old(bank).pdor, N as u32)),
    {
        proof {
            use_type_invariant(&*self);
        }
        bank.write_set_output(N);
    }

    /// Drives the pin low through the clear-output register.
    pub fn set_low(&mut self, bank: &mut GpioBank<P>)
        ensures
            old(bank).pdor_written(final(bank), clear_bit32(old(bank).pdor, N as u32)),
    {
        proof {
            use_type_invariant(&*self);
        }
        bank.write_clear_output(N);
    }

    /// Gives up the compile-time index: the result carries bank and index as values.
    pub fn downgrade(self) -> (r: Pin<Output<MODE>>)
        ensures
            r.port_of() == P,
            r.index_of() == N,
    {
        proof {
            use_type_invariant(&self);
        }
        Pin { i: N, port: P, _mode: PhantomData }
    }
}

impl<const P: u8, const N: u8> GpioPin<P, N, Output<PushPull>> {
    /// Reads the pin back through the data input register; for a push-pull
    /// output that is the level last driven.
    pub fn is_set_high(&self, bank: &GpioBank<P>) -> (r: bool)
        requires
            bank.wf(),
            bank.is_output(N as u32),
            !bank.is_open_drain(N as u32),
        ensures
            r == bank.level(N as u32),
            r == bit32(bank.pdor, N as u32),
    {
        !self.is_set_low(bank)
    }

    /// Reads the pin back through the data input register; for a push-pull
    /// output that is the level last driven.
    pub fn is_set_low(&self, bank: &GpioBank<P>) -> (r: bool)
        requires
            bank.wf(),
            bank.is_output(N as u32),
            !bank.is_open_drain(N as u32),
        ensures
            r == !bank.level(N as u32),
            r == !bit32(bank.pdor, N as u32),
    {
        proof {
            use_type_invariant(self);
        }
        !bank.read_input(N)
    }
}

impl<const P: u8, const N: u8> GpioPin<P, N, Output<OpenDrain>> {
    /// Reads the pin back through the data input register; for an
    /// open-drain output that is the level on the line.
    pub fn is_set_high(&self, bank: &GpioBank<P>) -> (r: bool)
        requires
            bank.wf(),
            bank.is_output(N as u32),
            bank.is_open_drain(N as u32),
        ensures
            r == bank.level(N as u32),
            r == (bit32(bank.pdor, N as u32) && bit32(bank.external, N as u32)),
    {
        self.is_high(bank)
    }

    /// Reads the pin back through the data input register; for an
    /// open-drain output that is the level on the line.
    pub fn is_set_low(&self, bank: &GpioBank<P>) -> (r: bool)
        requires
            bank.wf(),
            bank.is_output(N as u32),
            bank.is_open_drain(N as u32),
        ensures
            r == !bank.level(N as u32),
            r == !(bit32(bank.pdor, N as u32) && bit32(bank.external, N as u32)),
    {
        self.is_low(bank)
    }

    /// Level on the open-drain line.
    pub fn is_high(&self, bank: &GpioBank<P>) -> (r: bool)
        requires
            bank.wf(),
        ensures
            r == bank.level(N as u32),
    {
        !self.is_low(bank)
    }

    /// Level on the open-drain line.
    pub fn is_low(&self, bank: &GpioBank<P>) -> (r: bool)
        requires
            bank.wf(),
        ensures
            r == !bank.level(N as u32),
    {
        proof {
            use_type_invariant(self);
        }
        !bank.read_input(N)
    }
}

impl<const P: u8, const N: u8, MODE> GpioPin<P, N, Input<MODE>> {
    /// Level on the input.
    pub fn is_high(&self, bank: &GpioBank<P>) -> (r: bool)
        requires
            bank.wf(),
        ensures
            r == bank.level(N as u32),
    {
        !self.is_low(bank)
    }

    /// Level on the input.
    pub fn is_low(&self, bank: &GpioBank<P>) -> (r: bool)
        requires
            bank.wf(),
        ensures
            r == !bank.level(N as u32),
    {
        proof {
            use_type_invariant(self);
        }
        !bank.read_input(N)
    }

    /// Gives up the compile-time index: the result carries bank and index as values.
    pub fn downgrade(self) -> (r: Pin<Input<MODE>>)
        ensures
            r.port_of() == P,
            r.index_of() == N,
    {
        proof {
            use_type_invariant(&self);
        }
        Pin { i: N, port: P, _mode: PhantomData }
    }
}

/// A pin whose bank and bit index are runtime values; only its direction
/// stays in the type.
pub struct Pin<MODE> {
    i: u8,
    port: u8,
    _mode: PhantomData<MODE>,
}

impl<MODE> Pin<MODE> {
    #[verifier::type_invariant]
    spec fn inv(&self) -> bool {
        self.i < 32
    }

    pub closed spec fn port_of(&self) -> u8 {
        self.port
    }

    pub closed spec fn index_of(&self) -> u8 {
        self.i
    }

    /// Bank of the pin, 0 for A to 4 for E.
    pub fn port(&self) -> (r: u8)
        ensures
            r == self.port_of(),
    {
        self.port
    }

    /// Bit index of the pin within its bank.
    pub fn index(&self) -> (r: u8)
        ensures
            r == self.index_of(),
            r < 32,
    {
        proof {
            use_type_invariant(self);
        }
        self.i
    }
}

impl<MODE> Pin<Output<MODE>> {
    /// Drives the pin high through the set-output register of its bank.
    pub fn set_high<const P: u8>(&mut self, bank: &mut GpioBank<P>)
        requires
            old(self).port_of() == P,
        ensures
            old(bank).pdor_written(final(bank), set_bit32(old(bank).pdor, old(self).index_of() as u32)),
            *final(self) == *old(self),
    {
        let i = self.index();
        bank.write_set_output(i);
    }

    /// Drives the pin low through the clear-output register of its bank.
    pub fn set_low<const P: u8>(&mut self, bank: &mut GpioBank<P>)
        requires
            old(self).port_of() == P,
        ensures
            old(bank).pdor_written(final(bank), clear_bit32(old(bank).pdor, old(self).index_of() as u32)),
            *final(self) == *old(self),
    {
        let i = self.index();
        bank.write_clear_output(i);
    }
}

impl Pin<Output<PushPull>> {
    /// Reads the pin back through the data input register of its bank; for
    /// a push-pull output that is the level last driven.
    pub fn is_set_high<const P: u8>(&self, bank: &GpioBank<P>) -> (r: bool)
        requires
            self.port_of() == P,
            bank.wf(),
            bank.is_output(self.index_of() as u32),
            !bank.is_open_drain(self.index_of() as u32),
        ensures
            r == bank.level(self.index_of() as u32),
            r == bit32(bank.pdor, self.index_of() as u32),
    {
        let i = self.index();
        bank.read_input(i)
    }

    /// Reads the pin back through the data input register of its bank; for
    /// a push-pull output that is the level last driven.
    pub fn is_set_low<const P: u8>(&self, bank: &GpioBank<P>) -> (r: bool)
        requires
            self.port_of() == P,
            bank.wf(),
            bank.is_output(self.index_of() as u32),
            !bank.is_open_drain(self.index_of() as u32),
        ensures
            r == !bank.level(self.index_of() as u32),
            r == !bit32(bank.pdor, self.index_of() as u32),
    {
        !self.is_set_high(bank)
    }
}

impl Pin<Output<OpenDrain>> {
    /// Reads the pin back through the data input register of its bank; for
    /// an open-drain output that is the level on the line.
    pub fn is_set_high<const P: u8>(&self, bank: &GpioBank<P>) -> (r: bool)
        requires
            self.port_of() == P,
            bank.wf(),
            bank.is_output(self.index_of() as u32),
            bank.is_open_drain(self.index_of() as u32),
        ensures
            r == bank.level(self.index_of() as u32),
            r == (bit32(bank.pdor, self.index_of() as u32) && bit32(
                bank.external,
                self.index_of() as u32,
            )),
    {
        self.is_high(bank)
    }

    /// Reads the pin back through the data input register of its bank; for
    /// an open-drain output that is the level on the line.
    pub fn is_set_low<const P: u8>(&self, bank: &GpioBank<P>) -> (r: bool)
        requires
            self.port_of() == P,
            bank.wf(),
            bank.is_output(self.index_of() as u32),
            bank.is_open_drain(self.index_of() as u32),
        ensures
            r == !bank.level(self.index_of() as u32),
            r == !(bit32(bank.pdor, self.index_of() as u32) && bit32(
                bank.external,
                self.index_of() as u32,
            )),
    {
        !self.is_high(bank)
    }

    /// Level on the open-drain line.
    pub fn is_high<const P: u8>(&self, bank: &GpioBank<P>) -> (r: bool)
        requires
            self.port_of() == P,
            bank.wf(),
        ensures
            r == bank.level(self.index_of() as u32),
    {
        let i = self.index();
        bank.read_input(i)
    }

    /// Level on the open-drain line.
    pub fn is_low<const P: u8>(&self, bank: &GpioBank<P>) -> (r: bool)
        requires
            self.port_of() == P,
            bank.wf(),
        ensures
            r == !bank.level(self.index_of() as u32),
    {
        !self.is_high(bank)
    }
}

impl<MODE> Pin<Input<MODE>> {
    /// Level on the input.
    pub fn is_high<const P: u8>(&self, bank: &GpioBank<P>) -> (r: bool)
        requires
            self.port_of() == P,
            bank.wf(),
        ensures
            r == bank.level(self.index_of() as u32),
    {
        let i = self.index();
        bank.read_input(i)
    }

    /// Level on the input.
    pub fn is_low<const P: u8>(&self, bank: &GpioBank<P>) -> (r: bool)
        requires
            self.port_of() == P,
            bank.wf(),
        ensures
            r == !bank.level(self.index_of() as u32),
    {
        !self.is_high(bank)
    }
}

/// Pins that splitting a bank hands out, each a floating input, together
/// with the bank's register model.
pub struct Parts<const P: u8> {
    pub bank: GpioBank<P>,
    pub p0: GpioPin<P, 0, Input<Floating>>,
    pub p1: GpioPin<P, 1, Input<Floating>>,
    pub p2: GpioPin<P, 2, Input<Floating>>,
    pub p3: GpioPin<P, 3, Input<Floating>>,
    pub p4: GpioPin<P, 4, Input<Floating>>,
    pub p5: GpioPin<P, 5, Input<Floating>>,
    pub p6: GpioPin<P, 6, Input<Floating>>,
    pub p7: GpioPin<P, 7, Input<Floating>>,
    pub p8: GpioPin<P, 8, Input<Floating>>,
    pub p9: GpioPin<P, 9, Input<Floating>>,
    pub p10: GpioPin<P, 10, Input<Floating>>,
    pub p11: GpioPin<P, 11, Input<Floating>>,
    pub p12: GpioPin<P, 12, Input<Floating>>,
    pub p13: GpioPin<P, 13, Input<Floating>>,
    pub p14: GpioPin<P, 14, Input<Floating>>,
    pub p15: GpioPin<P, 15, Input<Floating>>,
    pub p16: GpioPin<P, 16, Input<Floating>>,
    pub p17: GpioPin<P, 17, Input<Floating>>,
    pub p18: GpioPin<P, 18, Input<Floating>>,
    pub p19: GpioPin<P, 19, Input<Floating>>,
    pub p20: GpioPin<P, 20, Input<Floating>>,
    pub p21: GpioPin<P, 21, Input<Floating>>,
    pub p22: GpioPin<P, 22, Input<Floating>>,
    pub p23: GpioPin<P, 23, Input<Floating>>,
    pub p24: GpioPin<P, 24, Input<Floating>>,
    pub p25: GpioPin<P, 25, Input<Floating>>,
    pub p26: GpioPin<P, 26, Input<Floating>>,
    pub p27: GpioPin<P, 27, Input<Floating>>,
    pub p28: GpioPin<P, 28, Input<Floating>>,
    pub p29: GpioPin<P, 29, Input<Floating>>,
    pub p30: GpioPin<P, 30, Input<Floating>>,
    pub p31: GpioPin<P, 31, Input<Floating>>,
}

/// Splitting a bank into its pins.
pub trait GpioExt: Sized {
    type Parts;

    /// SCGC5 bit of the clock gate of this bank.
    spec fn gate_bit(&self) -> u32;

    /// The bank exists on this part.
    spec fn is_valid(&self) -> bool;

    /// `parts` is what splitting `self` hands out.
    spec fn is_split_of(&self, parts: &Self::Parts) -> bool;

    /// Opens the bank's clock gate and hands out one typed pin per bit index.
    fn split(self, sim: &mut ClockGates) -> (r: Self::Parts)
        requires
            self.is_valid(),
        ensures
            final(sim).scgc5 == old(sim).scgc5 | (1u32 << self.gate_bit()),
            final(sim).scgc4 == old(sim).scgc4,
            self.is_split_of(&r),
    ;
}

impl<const P: u8> GpioExt for GpioBank<P> {
    type Parts = Parts<P>;

    open spec fn gate_bit(&self) -> u32 {
        port_gate_bit(P)
    }

    open spec fn is_valid(&self) -> bool {
        self.wf()
    }

    open spec fn is_split_of(&self, parts: &Parts<P>) -> bool {
        parts.bank == *self
    }

    fn split(self, sim: &mut ClockGates) -> (r: Parts<P>) {
        sim.enable_port(P);
        Parts {
            bank: self,
            p0: GpioPin { _mode: PhantomData },
            p1: GpioPin { _mode: PhantomData },
            p2: GpioPin { _mode: PhantomData },
            p3: GpioPin { _mode: PhantomData },
            p4: GpioPin { _mode: PhantomData },
            p5: GpioPin { _mode: PhantomData },
            p6: GpioPin { _mode: PhantomData },
            p7: GpioPin { _mode: PhantomData },
            p8: GpioPin { _mode: PhantomData },
            p9: GpioPin { _mode: PhantomData },
            p10: GpioPin { _mode: PhantomData },
            p11: GpioPin { _mode: PhantomData },
            p12: GpioPin { _mode: PhantomData },
            p13: GpioPin { _mode: PhantomData },
            p14: GpioPin { _mode: PhantomData },
            p15: GpioPin { _mode: PhantomData },
            p16: GpioPin { _mode: PhantomData },
            p17: GpioPin { _mode: PhantomData },
            p18: GpioPin { _mode: PhantomData },
            p19: GpioPin { _mode: PhantomData },
            p20: GpioPin { _mode: PhantomData },
            p21: GpioPin { _mode: PhantomData },
            p22: GpioPin { _mode: PhantomData },
            p23: GpioPin { _mode: PhantomData },
            p24: GpioPin { _mode: PhantomData },
            p25: GpioPin { _mode: PhantomData },
            p26: GpioPin { _mode: PhantomData },
            p27: GpioPin { _mode: PhantomData },
            p28: GpioPin { _mode: PhantomData },
            p29: GpioPin { _mode: PhantomData },
            p30: GpioPin { _mode: PhantomData },
            p31: GpioPin { _mode: PhantomData },
        }
    }
}

/// Clock line of I2C0.
pub type PE24<MODE> = GpioPin<4, 24, MODE>;

/// Data line of I2C0.
pub type PE25<MODE> = GpioPin<4, 25, MODE>;

/// Receive line of UART0.
pub type PB16<MODE> = GpioPin<1, 16, MODE>;

/// Transmit line of UART0.
pub type PB17<MODE> = GpioPin<1, 17, MODE>;

/// A push-pull output reads back the level last driven onto it: after
/// `set_high` the output bit, and so the read-back, is high; after `set_low`
/// it is low. The other pins' output bits are unchanged.
pub proof fn lemma_output_reads_back<const P: u8>(
    before: GpioBank<P>,
    after: GpioBank<P>,
    i: u32,
    high: bool,
)
    requires
        before.wf(),
        i < 32,
        before.pdor_written(&after, drive(before.pdor, i, high)),
    ensures
        bit32(after.pdor, i) == high,
        forall|j: u32| j < 32 && j != i ==> bit32(after.pdor, j) == bit32(before.pdor, j),
        before.is_output(i) && !before.is_open_drain(i) ==> after.is_output(i)
            && !after.is_open_drain(i) && after.level(i) == high,
{
    lemma_set_bit32(before.pdor, i, i);
    lemma_clear_bit32(before.pdor, i, i);
    assert forall|j: u32| j < 32 && j != i implies bit32(after.pdor, j) == bit32(before.pdor, j) by {
        lemma_set_bit32(before.pdor, i, j);
        lemma_clear_bit32(before.pdor, i, j);
    }
}

/// Driving a pin high (or low) a second time leaves every register as the
/// first time left it.
pub proof fn lemma_drive_idempotent<const P: u8>(
    b0: GpioBank<P>,
    b1: GpioBank<P>,
    b2: GpioBank<P>,
    i: u32,
    high: bool,
)
    requires
        i < 32,
        b0.pdor_written(&b1, drive(b0.pdor, i, high)),
        b1.pdor_written(&b2, drive(b1.pdor, i, high)),
    ensures
        b2.pdor == b1.pdor,
        b2.pddr == b1.pddr,
        b2.pcr@ == b1.pcr@,
        b2.external == b1.external,
        forall|j: u32| j < 32 ==> b2.level(j) == b1.level(j),
{
    lemma_set_bit32_idempotent(b0.pdor, i);
    lemma_clear_bit32_idempotent(b0.pdor, i);
}

/// Pins at different bit indices of one bank do not interfere: driving one
/// leaves the other's output bit alone, and the two writes commute.
pub proof fn lemma_independent_pins(pdor: u32, i: u32, j: u32, vi: bool, vj: bool)
    requires
        i < 32,
        j < 32,
        i != j,
    ensures
        bit32(drive(pdor, j, vj), i) == bit32(pdor, i),
        bit32(drive(drive(pdor, i, vi), j, vj), i) == vi,
        bit32(drive(drive(pdor, i, vi), j, vj), j) == vj,
        drive(drive(pdor, i, vi), j, vj) == drive(drive(pdor, j, vj), i, vi),
{
    lemma_set_bit32(pdor, j, i);
    lemma_clear_bit32(pdor, j, i);
    lemma_set_bit32(pdor, i, i);
    lemma_clear_bit32(pdor, i, i);
    lemma_set_bit32(drive(pdor, i, vi), j, i);
    lemma_clear_bit32(drive(pdor, i, vi), j, i);
    lemma_set_bit32(drive(pdor, i, vi), j, j);
    lemma_clear_bit32(drive(pdor, i, vi), j, j);
    lemma_set_clear_commute32(pdor, i, j);
    lemma_set_clear_commute32(pdor, j, i);
}

} // verus!

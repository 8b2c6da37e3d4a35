use k64_hal::gpio::{
    AlternativeOD, Floating, GpioBank, GpioExt, GpioPin, Input, Output, Pin, PushPull, AF5,
};
use k64_hal::sim::ClockGates;

fn mux(bank_pcr: u32) -> u32 {
    (bank_pcr >> 8) & 7
}

fn check_read_back<const P: u8, const N: u8>(
    pin: GpioPin<P, N, Input<Floating>>,
    bank: &mut GpioBank<P>,
) {
    let mut out = pin.into_output(bank);
    out.set_high(bank);
    assert!(out.is_set_high(bank));
    assert!(!out.is_set_low(bank));
    out.set_low(bank);
    assert!(out.is_set_low(bank));
    assert!(!out.is_set_high(bank));
}

fn read_back_bank<const P: u8>() {
    let mut sim = ClockGates::new();
    let parts = GpioBank::<P>::new().split(&mut sim);
    assert_eq!(sim.scgc5, 1u32 << (9 + P as u32));
    let mut bank = parts.bank;
    check_read_back(parts.p0, &mut bank);
    check_read_back(parts.p1, &mut bank);
    check_read_back(parts.p2, &mut bank);
    check_read_back(parts.p3, &mut bank);
    check_read_back(parts.p4, &mut bank);
    check_read_back(parts.p5, &mut bank);
    check_read_back(parts.p6, &mut bank);
    check_read_back(parts.p7, &mut bank);
    check_read_back(parts.p8, &mut bank);
    check_read_back(parts.p9, &mut bank);
    check_read_back(parts.p10, &mut bank);
    check_read_back(parts.p11, &mut bank);
    check_read_back(parts.p12, &mut bank);
    check_read_back(parts.p13, &mut bank);
    check_read_back(parts.p14, &mut bank);
    check_read_back(parts.p15, &mut bank);
    check_read_back(parts.p16, &mut bank);
    check_read_back(parts.p17, &mut bank);
    check_read_back(parts.p18, &mut bank);
    check_read_back(parts.p19, &mut bank);
    check_read_back(parts.p20, &mut bank);
    check_read_back(parts.p21, &mut bank);
    check_read_back(parts.p22, &mut bank);
    check_read_back(parts.p23, &mut bank);
    check_read_back(parts.p24, &mut bank);
    check_read_back(parts.p25, &mut bank);
    check_read_back(parts.p26, &mut bank);
    check_read_back(parts.p27, &mut bank);
    check_read_back(parts.p28, &mut bank);
    check_read_back(parts.p29, &mut bank);
    check_read_back(parts.p30, &mut bank);
    check_read_back(parts.p31, &mut bank);
}

#[test]
fn set_then_read_back_every_pin_of_every_bank() {
    read_back_bank::<0>();
    read_back_bank::<1>();
    read_back_bank::<2>();
    read_back_bank::<3>();
    read_back_bank::<4>();
}

#[test]
fn split_opens_only_the_bank_clock_gate() {
    let mut sim = ClockGates::new();
    let parts = GpioBank::<2>::new().split(&mut sim);
    assert_eq!(sim.scgc5, 1 << 11);
    assert_eq!(sim.scgc4, 0);
    assert_eq!(parts.bank.pcr.len(), 32);
}

#[test]
fn transitions_set_the_multiplexer_field() {
    let mut sim = ClockGates::new();
    let parts = GpioBank::<4>::new().split(&mut sim);
    let mut bank = parts.bank;

    let _p = parts.p0.into_alternate_af0(&mut bank);
    assert_eq!(mux(bank.pcr[0]), 0);
    let _p = parts.p1.into_alternate_af1(&mut bank);
    assert_eq!(mux(bank.pcr[1]), 1);
    let _p = parts.p2.into_alternate_af2(&mut bank);
    assert_eq!(mux(bank.pcr[2]), 2);
    let _p = parts.p3.into_alternate_af3(&mut bank);
    assert_eq!(mux(bank.pcr[3]), 3);
    let _p = parts.p4.into_alternate_af4(&mut bank);
    assert_eq!(mux(bank.pcr[4]), 4);
    let _p = parts.p5.into_alternate_af5(&mut bank);
    assert_eq!(mux(bank.pcr[5]), 5);
    let _p = parts.p6.into_alternate_af6(&mut bank);
    assert_eq!(mux(bank.pcr[6]), 6);
    let _p = parts.p7.into_alternate_af7(&mut bank);
    assert_eq!(mux(bank.pcr[7]), 7);

    let _p = parts.p8.into_af0_outputdrain(&mut bank);
    assert_eq!(bank.pcr[8], 0x023);
    let _p = parts.p9.into_af1_outputdrain(&mut bank);
    assert_eq!(bank.pcr[9], 0x123);
    let _p = parts.p10.into_af2_outputdrain(&mut bank);
    assert_eq!(bank.pcr[10], 0x223);
    let _p = parts.p11.into_af3_outputdrain(&mut bank);
    assert_eq!(bank.pcr[11], 0x323);
    let _p = parts.p12.into_af4_outputdrain(&mut bank);
    assert_eq!(bank.pcr[12], 0x423);
    let _p = parts.p13.into_af5_outputdrain(&mut bank);
    assert_eq!(bank.pcr[13], 0x523);
    let _p = parts.p14.into_af6_outputdrain(&mut bank);
    assert_eq!(bank.pcr[14], 0x623);
    let _p = parts.p15.into_af7_outputdrain(&mut bank);
    assert_eq!(bank.pcr[15], 0x723);

    let _p = parts.p16.into_output(&mut bank);
    assert_eq!(mux(bank.pcr[16]), 1);
    assert_eq!(bank.pcr[16] & 0x20, 0);
    assert_eq!(bank.pddr, 1 << 16);

    let _p = parts.p17.into_open_drain(&mut bank);
    assert_eq!(mux(bank.pcr[17]), 1);
    assert_eq!(bank.pcr[17] & 0x20, 0x20);
    assert_eq!(bank.pddr, (1 << 16) | (1 << 17));

    let p = parts.p18.enable(&mut bank);
    assert_eq!(mux(bank.pcr[18]), 1);
    let _p = p.disable(&mut bank);
    assert_eq!(mux(bank.pcr[18]), 0);

    // every other control register is untouched
    for i in 19..32 {
        assert_eq!(bank.pcr[i], 0);
    }
}

#[test]
fn alternate_then_back_to_output() {
    let mut sim = ClockGates::new();
    let parts = GpioBank::<4>::new().split(&mut sim);
    let mut bank = parts.bank;
    let scl: GpioPin<4, 24, AlternativeOD<AF5>> = parts.p24.into_af5_outputdrain(&mut bank);
    assert_eq!(mux(bank.pcr[24]), 5);
    let out: GpioPin<4, 24, Output<PushPull>> = scl.into_output(&mut bank);
    assert_eq!(mux(bank.pcr[24]), 1);
    assert_eq!(bank.pcr[24] & 0x20, 0);
    let _ = out;
}

#[test]
fn set_high_twice_equals_once() {
    let mut sim = ClockGates::new();
    let parts = GpioBank::<0>::new().split(&mut sim);
    let mut bank = parts.bank;
    let mut out = parts.p5.into_output(&mut bank);
    out.set_high(&mut bank);
    let once = (bank.pdor, bank.pddr, bank.pcr.clone(), bank.external);
    out.set_high(&mut bank);
    let twice = (bank.pdor, bank.pddr, bank.pcr.clone(), bank.external);
    assert_eq!(once, twice);
    assert_eq!(bank.pdor, 1 << 5);
    assert!(out.is_set_high(&bank));
}

#[test]
fn set_low_twice_equals_once() {
    let mut sim = ClockGates::new();
    let parts = GpioBank::<0>::new().split(&mut sim);
    let mut bank = parts.bank;
    bank.pdor = 0xFFFF_FFFF;
    let mut out = parts.p31.into_output(&mut bank);
    out.set_low(&mut bank);
    let once = bank.pdor;
    out.set_low(&mut bank);
    assert_eq!(bank.pdor, once);
    assert_eq!(bank.pdor, 0x7FFF_FFFF);
}

#[test]
fn erased_pins_do_not_interfere() {
    let mut sim = ClockGates::new();
    let parts = GpioBank::<3>::new().split(&mut sim);
    let mut bank = parts.bank;
    let mut pins: Vec<Pin<Output<PushPull>>> = Vec::new();
    pins.push(parts.p0.into_output(&mut bank).downgrade());
    pins.push(parts.p1.into_output(&mut bank).downgrade());
    pins.push(parts.p2.into_output(&mut bank).downgrade());
    pins.push(parts.p3.into_output(&mut bank).downgrade());
    pins.push(parts.p4.into_output(&mut bank).downgrade());
    pins.push(parts.p5.into_output(&mut bank).downgrade());
    pins.push(parts.p6.into_output(&mut bank).downgrade());
    pins.push(parts.p7.into_output(&mut bank).downgrade());
    pins.push(parts.p8.into_output(&mut bank).downgrade());
    pins.push(parts.p9.into_output(&mut bank).downgrade());
    pins.push(parts.p10.into_output(&mut bank).downgrade());
    pins.push(parts.p11.into_output(&mut bank).downgrade());
    pins.push(parts.p12.into_output(&mut bank).downgrade());
    pins.push(parts.p13.into_output(&mut bank).downgrade());
    pins.push(parts.p14.into_output(&mut bank).downgrade());
    pins.push(parts.p15.into_output(&mut bank).downgrade());
    pins.push(parts.p16.into_output(&mut bank).downgrade());
    pins.push(parts.p17.into_output(&mut bank).downgrade());
    pins.push(parts.p18.into_output(&mut bank).downgrade());
    pins.push(parts.p19.into_output(&mut bank).downgrade());
    pins.push(parts.p20.into_output(&mut bank).downgrade());
    pins.push(parts.p21.into_output(&mut bank).downgrade());
    pins.push(parts.p22.into_output(&mut bank).downgrade());
    pins.push(parts.p23.into_output(&mut bank).downgrade());
    pins.push(parts.p24.into_output(&mut bank).downgrade());
    pins.push(parts.p25.into_output(&mut bank).downgrade());
    pins.push(parts.p26.into_output(&mut bank).downgrade());
    pins.push(parts.p27.into_output(&mut bank).downgrade());
    pins.push(parts.p28.into_output(&mut bank).downgrade());
    pins.push(parts.p29.into_output(&mut bank).downgrade());
    pins.push(parts.p30.into_output(&mut bank).downgrade());
    pins.push(parts.p31.into_output(&mut bank).downgrade());
    for (k, p) in pins.iter().enumerate() {
        assert_eq!(p.port(), 3);
        assert_eq!(p.index() as usize, k);
    }
    for i in 0..32usize {
        for j in 0..32usize {
            if i == j {
                continue;
            }
            for start in [0u32, 0xFFFF_FFFF, 0xA5A5_5A5A] {
                bank.pdor = start;
                pins[i].set_high(&mut bank);
                pins[j].set_low(&mut bank);
                let first = bank.pdor;
                assert!(pins[i].is_set_high(&bank));
                assert!(pins[j].is_set_low(&bank));

                bank.pdor = start;
                pins[j].set_low(&mut bank);
                pins[i].set_high(&mut bank);
                assert_eq!(bank.pdor, first);

                let expected = (start | (1 << i)) & !(1 << j);
                assert_eq!(first, expected);
            }
        }
    }
}

#[test]
fn erased_input_reads_outside_level() {
    let mut sim = ClockGates::new();
    let parts = GpioBank::<1>::new().split(&mut sim);
    let mut bank = parts.bank;
    let input = parts.p7.downgrade();
    assert!(input.is_low(&bank));
    bank.apply_external(1 << 7);
    assert!(input.is_high(&bank));
    assert!(!input.is_low(&bank));
}

#[test]
fn typed_input_reads_outside_level() {
    let mut sim = ClockGates::new();
    let parts = GpioBank::<1>::new().split(&mut sim);
    let mut bank = parts.bank;
    bank.apply_external(1 << 3);
    assert!(parts.p3.is_high(&bank));
    assert!(parts.p4.is_low(&bank));
}

#[test]
fn open_drain_reads_the_wire() {
    let mut sim = ClockGates::new();
    let parts = GpioBank::<2>::new().split(&mut sim);
    let mut bank = parts.bank;
    let mut od = parts.p9.into_open_drain(&mut bank);
    od.set_high(&mut bank);
    // released line held low from outside reads low
    assert!(od.is_set_low(&bank));
    assert!(od.is_low(&bank));
    bank.apply_external(1 << 9);
    assert!(od.is_set_high(&bank));
    assert!(od.is_high(&bank));
    od.set_low(&mut bank);
    assert!(od.is_low(&bank));
}

#[test]
fn bank_starts_at_power_on_state() {
    let bank = GpioBank::<4>::new();
    assert_eq!(bank.pcr, vec![0u32; 32]);
    assert_eq!(bank.pdor, 0);
    assert_eq!(bank.pddr, 0);
    assert!(!bank.read_input(0));
}

#[test]
fn erased_open_drain_reads_the_wire() {
    let mut sim = ClockGates::new();
    let parts = GpioBank::<0>::new().split(&mut sim);
    let mut bank = parts.bank;
    let mut od = parts.p2.into_open_drain(&mut bank).downgrade();
    od.set_high(&mut bank);
    assert!(od.is_low(&bank));
    bank.apply_external(1 << 2);
    assert!(od.is_high(&bank));
    assert!(od.is_set_high(&bank));
}

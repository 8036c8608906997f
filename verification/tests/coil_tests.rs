use coil_cadence::coil::{
    control_coil, read_request, BitRead, CoilWrite, ReadOutcome, State, COIL_READ_COUNT,
};

fn reply(first: bool) -> ReadOutcome {
    let mut bits = vec![false; 10];
    bits[0] = first;
    ReadOutcome::Bits(bits)
}

#[test]
fn on_writes_false_whatever_was_read() {
    for v in [true, false] {
        let w = control_coil(512, State::On, &reply(v));
        assert_eq!(w, Some(CoilWrite { address: 512, value: false }));
    }
}

#[test]
fn off_writes_true_whatever_was_read() {
    for v in [true, false] {
        let w = control_coil(513, State::Off, &reply(v));
        assert_eq!(w, Some(CoilWrite { address: 513, value: true }));
    }
}

#[test]
fn toggle_writes_the_negation_of_the_first_bit() {
    let w = control_coil(512, State::Toggle, &reply(true));
    assert_eq!(w, Some(CoilWrite { address: 512, value: false }));
    let w = control_coil(512, State::Toggle, &reply(false));
    assert_eq!(w, Some(CoilWrite { address: 512, value: true }));
}

#[test]
fn toggle_ignores_every_bit_but_the_first() {
    let bits = vec![false, true, true, true, true, true, true, true, true, true];
    let w = control_coil(7, State::Toggle, &ReadOutcome::Bits(bits));
    assert_eq!(w, Some(CoilWrite { address: 7, value: true }));
    let bits = vec![true, false, false];
    let w = control_coil(7, State::Toggle, &ReadOutcome::Bits(bits));
    assert_eq!(w, Some(CoilWrite { address: 7, value: false }));
}

#[test]
fn toggle_on_a_single_bit_reply() {
    let w = control_coil(0, State::Toggle, &ReadOutcome::Bits(vec![true]));
    assert_eq!(w, Some(CoilWrite { address: 0, value: false }));
}

#[test]
fn on_and_off_do_not_need_a_bit() {
    let w = control_coil(512, State::On, &ReadOutcome::Bits(Vec::new()));
    assert_eq!(w, Some(CoilWrite { address: 512, value: false }));
    let w = control_coil(512, State::Off, &ReadOutcome::Bits(Vec::new()));
    assert_eq!(w, Some(CoilWrite { address: 512, value: true }));
}

#[test]
fn failed_read_writes_nothing() {
    assert_eq!(control_coil(512, State::On, &ReadOutcome::Failed), None);
    assert_eq!(control_coil(512, State::Off, &ReadOutcome::Failed), None);
    assert_eq!(control_coil(512, State::Toggle, &ReadOutcome::Failed), None);
}

#[test]
fn write_goes_to_the_coil_that_was_named() {
    for coil in [0u16, 512, 513, u16::MAX] {
        let w = control_coil(coil, State::Toggle, &reply(false)).unwrap();
        assert_eq!(w.address, coil);
    }
}

#[test]
fn read_request_asks_for_ten_coils_at_the_address() {
    assert_eq!(COIL_READ_COUNT, 10);
    assert_eq!(read_request(512), BitRead { address: 512, count: 10 });
    assert_eq!(read_request(u16::MAX), BitRead { address: u16::MAX, count: 10 });
}

#[test]
fn toggling_twice_restores_the_wire_value() {
    for v in [true, false] {
        let first = control_coil(512, State::Toggle, &reply(v)).unwrap();
        let second = control_coil(512, State::Toggle, &reply(first.value)).unwrap();
        assert_eq!(second.value, v);
    }
}

use stm32f411_nucleo::gy37y3530::{motor_read, motor_setup, Encoder};
use stm32f411_nucleo::bus::{BusOp, Reg};

#[test]
fn new_encoder_starts_at_zero() {
    let e = Encoder::new((false, true), 2096);
    assert_eq!(e.ticks(), 0);
}

#[test]
fn forward_transitions_count_up() {
    let mut e = Encoder::new((false, false), 2096);
    e.update((false, true));
    e.update((true, true));
    e.update((true, false));
    e.update((false, false));
    assert_eq!(e.ticks(), 4);
}

#[test]
fn backward_transitions_count_down() {
    let mut e = Encoder::new((false, false), 2096);
    e.update((true, false));
    e.update((true, true));
    e.update((false, true));
    e.update((false, false));
    assert_eq!(e.ticks(), -4);
}

#[test]
fn each_forward_transition_adds_one() {
    for (p, c) in [
        ((false, false), (false, true)),
        ((false, true), (true, true)),
        ((true, true), (true, false)),
        ((true, false), (false, false)),
    ] {
        let mut e = Encoder::new(p, 100);
        e.update(c);
        assert_eq!(e.ticks(), 1);
    }
}

#[test]
fn each_backward_transition_removes_one() {
    for (p, c) in [
        ((false, false), (true, false)),
        ((true, false), (true, true)),
        ((true, true), (false, true)),
        ((false, true), (false, false)),
    ] {
        let mut e = Encoder::new(p, 100);
        e.update(c);
        assert_eq!(e.ticks(), -1);
    }
}

#[test]
fn unchanged_and_invalid_transitions_leave_count() {
    let mut e = Encoder::new((false, false), 100);
    e.update((false, false));
    assert_eq!(e.ticks(), 0);
    e.update((true, true));
    assert_eq!(e.ticks(), 0);
    let mut e = Encoder::new((false, true), 100);
    e.update((true, false));
    assert_eq!(e.ticks(), 0);
}

#[test]
fn step_and_step_back_restores_ticks() {
    let mut e = Encoder::new((true, true), 100);
    e.update((false, false));
    e.update((true, false));
    let before = e.ticks();
    e.update((false, false));
    e.update((true, false));
    assert_eq!(e.ticks(), before);
}

#[test]
fn prev_levels_follow_the_last_update() {
    let mut e = Encoder::new((false, false), 100);
    e.update((true, true));
    e.update((true, false));
    assert_eq!(e.ticks(), 1);
}

#[test]
fn motor_read_takes_pa6_and_pa7() {
    assert_eq!(motor_read(0), (false, false));
    assert_eq!(motor_read(1 << 6), (true, false));
    assert_eq!(motor_read(1 << 7), (false, true));
    assert_eq!(motor_read(0xFFFF_FF3F), (false, false));
    assert_eq!(motor_read(0xC0), (true, true));
}

#[test]
fn motor_setup_waits_ten_cycles_then_sets_inputs() {
    let ops = motor_setup();
    assert_eq!(ops.len(), 14);
    assert_eq!(ops[0], BusOp::Modify { reg: Reg::RccAhb1enr, mask: 1, value: 1 });
    assert!(ops[1..11].iter().all(|op| *op == BusOp::Nop));
    assert_eq!(ops[11], BusOp::Modify { reg: Reg::GpioaModer, mask: 0b11 << 12, value: 0 });
    assert_eq!(ops[12], BusOp::Modify { reg: Reg::GpioaModer, mask: 0b11 << 14, value: 0 });
    assert_eq!(ops[13], BusOp::Modify { reg: Reg::GpioaPupdr, mask: 0xF << 12, value: 0b1010 << 12 });
}

#[test]
fn ticks_never_exceed_number_of_updates() {
    let levels = [(false, false), (false, true), (true, true), (true, false)];
    let mut e = Encoder::new((false, false), 2096);
    let mut state: u32 = 12345;
    for k in 1..=200i32 {
        state = state.wrapping_mul(1103515245).wrapping_add(12345);
        e.update(levels[(state >> 16) as usize % 4]);
        assert!(e.ticks().abs() <= k);
    }
}

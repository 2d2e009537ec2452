use std::collections::HashMap;

use stm32f411_nucleo::bus::{apply_modify, set_bit, set_field, BusOp, Reg};
use stm32f411_nucleo::button_interrupt::{exti15_10, led_init, pc13_exti_init};
use stm32f411_nucleo::uart2_dma::dma1_stream6_uart_tx_config;
use stm32f411_nucleo::gy37y3530::{motor_setup, Encoder};
use stm32f411_nucleo::i2c::i2c1_init;
use stm32f411_nucleo::uart::{uart1_rx_tx_init, uart2_init};

/// Apply the register-changing steps of a plan to a register file whose
/// registers all start at `fill`.
fn run(ops: &[BusOp], fill: u32) -> HashMap<Reg, u32> {
    let mut regs: HashMap<Reg, u32> = HashMap::new();
    for op in ops {
        match *op {
            BusOp::Modify { reg, mask, value } => {
                let old = *regs.get(&reg).unwrap_or(&fill);
                regs.insert(reg, apply_modify(old, mask, value));
            }
            BusOp::Write { reg: Reg::ExtiPr, value } => {
                let old = *regs.get(&Reg::ExtiPr).unwrap_or(&fill);
                regs.insert(Reg::ExtiPr, old & !value);
            }
            BusOp::Write { reg: Reg::Dma1Hifcr, value } => {
                let old = *regs.get(&Reg::Dma1Hisr).unwrap_or(&fill);
                regs.insert(Reg::Dma1Hisr, old & !value);
                regs.insert(Reg::Dma1Hifcr, value);
            }
            BusOp::Write { reg, value } => {
                regs.insert(reg, value);
            }
            _ => {}
        }
    }
    regs
}

fn field(v: u32, offset: u32, width: u32) -> u32 {
    (v >> offset) & ((1u32 << width) - 1)
}

#[test]
fn set_field_sets_only_its_field() {
    let op = set_field(Reg::GpioaModer, 10, 2, 1);
    for fill in [0u32, 0xFFFF_FFFF, 0xA5A5_5A5A] {
        let r = run(&[op], fill)[&Reg::GpioaModer];
        assert_eq!(field(r, 10, 2), 1);
        assert_eq!(r & !(0b11 << 10), fill & !(0b11 << 10));
    }
    assert_eq!(set_bit(Reg::ExtiImr, 13), BusOp::Modify { reg: Reg::ExtiImr, mask: 1 << 13, value: 1 << 13 });
}

#[test]
fn i2c1_init_configures_pins_and_peripheral() {
    for fill in [0u32, 0xFFFF_FFFF, 0x1234_5678] {
        let r = run(&i2c1_init(), fill);
        assert_ne!(r[&Reg::RccAhb1enr] & (1 << 1), 0);
        assert_eq!(field(r[&Reg::GpiobModer], 16, 2), 2);
        assert_eq!(field(r[&Reg::GpiobModer], 18, 2), 2);
        assert_ne!(r[&Reg::GpiobOtyper] & (1 << 8), 0);
        assert_ne!(r[&Reg::GpiobOtyper] & (1 << 9), 0);
        assert_eq!(field(r[&Reg::GpiobPupdr], 16, 2), 1);
        assert_eq!(field(r[&Reg::GpiobPupdr], 18, 2), 1);
        assert_eq!(field(r[&Reg::GpiobAfrh], 0, 4), 4);
        assert_eq!(field(r[&Reg::GpiobAfrh], 4, 4), 4);
        assert_ne!(r[&Reg::RccApb1enr] & (1 << 21), 0);
        assert_eq!(r[&Reg::I2c1Cr1] & (1 << 15), 0);
        assert_ne!(r[&Reg::I2c1Cr1] & 1, 0);
        assert_eq!(field(r[&Reg::I2c1Cr2], 0, 6), 16);
        assert_eq!(r[&Reg::I2c1Ccr], 80);
        assert_eq!(r[&Reg::I2c1Trise], 17);
    }
}

#[test]
fn uart2_init_configures_transmitter() {
    for fill in [0u32, 0xFFFF_FFFF] {
        let r = run(&uart2_init(9600), fill);
        assert_ne!(r[&Reg::RccAhb1enr] & 1, 0);
        assert_eq!(field(r[&Reg::GpioaModer], 4, 2), 2);
        assert_eq!(field(r[&Reg::GpioaAfrl], 8, 4), 7);
        assert_ne!(r[&Reg::RccApb1enr] & (1 << 17), 0);
        assert_eq!(r[&Reg::Usart2Brr], 1667);
        assert_ne!(r[&Reg::Usart2Cr1] & (1 << 3), 0);
        assert_ne!(r[&Reg::Usart2Cr1] & (1 << 13), 0);
    }
}

#[test]
fn uart1_init_configures_pa9_pa10() {
    let r = run(&uart1_rx_tx_init(9600), 0);
    assert_eq!(field(r[&Reg::GpioaModer], 18, 2), 2);
    assert_eq!(field(r[&Reg::GpioaModer], 20, 2), 2);
    assert_eq!(field(r[&Reg::GpioaAfrh], 4, 4), 7);
    assert_eq!(field(r[&Reg::GpioaAfrh], 8, 4), 7);
    assert_eq!(r[&Reg::Usart1Brr], 1667);
    assert_eq!(r[&Reg::Usart1Cr1], (1 << 2) | (1 << 3) | (1 << 13));
}

#[test]
fn motor_setup_makes_pulled_down_inputs() {
    let r = run(&motor_setup(), 0xFFFF_FFFF);
    assert_eq!(field(r[&Reg::GpioaModer], 12, 2), 0);
    assert_eq!(field(r[&Reg::GpioaModer], 14, 2), 0);
    assert_eq!(field(r[&Reg::GpioaPupdr], 12, 2), 2);
    assert_eq!(field(r[&Reg::GpioaPupdr], 14, 2), 2);
}

#[test]
fn pc13_and_led_setup() {
    let r = run(&pc13_exti_init(), 0xFFFF_FFFF);
    assert_eq!(field(r[&Reg::GpiocModer], 26, 2), 0);
    assert_eq!(r[&Reg::SyscfgExticr4], 0x20);
    assert_ne!(r[&Reg::ExtiImr] & (1 << 13), 0);
    assert_ne!(r[&Reg::ExtiFtsr] & (1 << 13), 0);
    let r = run(&led_init(), 0);
    assert_eq!(field(r[&Reg::GpioaModer], 10, 2), 1);
}

#[test]
fn update_is_allowed_away_from_the_limits() {
    let e = Encoder::new((false, false), 2096);
    assert!(e.update_allowed((false, true)));
    assert!(e.update_allowed((true, false)));
    assert!(e.update_allowed((true, true)));
}

#[test]
fn dma_config_clears_stream6_flags_and_keeps_others() {
    let r = run(&dma1_stream6_uart_tx_config(0x2000_0100, 12), 0xFFFF_FFFF);
    assert_eq!(r[&Reg::Dma1Hisr], 0xFFFF_FFFF & !0x002C_0000);
    assert_eq!(r[&Reg::Dma1S6Ndtr], 12);
    assert_eq!(field(r[&Reg::Dma1S6Cr], 25, 3), 4);
    assert_eq!(field(r[&Reg::Dma1S6Cr], 6, 2), 1);
    assert_eq!(r[&Reg::Dma1S6Cr] & !((7 << 25) | (3 << 6) | (1 << 10) | (1 << 4) | 1), 0xFFFF_FFFF & !((7 << 25) | (3 << 6) | (1 << 10) | (1 << 4) | 1));
}

#[test]
fn button_handler_acknowledges_only_its_line() {
    let r = run(&exti15_10(0x2000, "button was pressed\n"), 0xFFFF_FFFF);
    assert_eq!(r[&Reg::ExtiPr], 0xFFFF_DFFF);
    assert!(run(&exti15_10(0x1000, "button was pressed\n"), 0).is_empty());
}

#[test]
fn init_keeps_untouched_bits() {
    let r = run(&i2c1_init(), 0xA5A5_A5A5);
    let moder_mask = (3 << 16) | (3 << 18);
    assert_eq!(r[&Reg::GpiobModer] & !moder_mask, 0xA5A5_A5A5 & !moder_mask);
    let r = run(&uart2_init(9600), 0x5A5A_5A5A);
    assert_eq!(r[&Reg::GpioaAfrl] & !(0xF << 8), 0x5A5A_5A5A & !(0xF << 8));
}

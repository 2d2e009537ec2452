//! USART1/USART2 configuration, transmission and reception.
use vstd::prelude::*;
use crate::bus::{
    BusOp, Reg, field, run_plan, set_bit, set_field, spec_set_bit, spec_set_field,
    lemma_run_push, lemma_run_empty, touched_mask, lemma_run_plan_frame,
    lemma_set_clear_bit, lemma_set_field, lemma_two_bits,
    lemma_field_then_bit, without_console, lemma_without_console_concat,
    lemma_without_console_single,
};
use vstd::string::StringSliceAdditionalSpecFns;

verus! {

/// Kernel clock of USART1 and USART2 after reset (HSI, no prescaler).
pub const UART_CLOCK_HZ: u32 = 16_000_000;

/// USART status register bits.
pub const USART_SR_FE: u32 = 1;
pub const USART_SR_NF: u32 = 2;
pub const USART_SR_ORE: u32 = 3;
pub const USART_SR_RXNE: u32 = 5;
pub const USART_SR_TC: u32 = 6;
pub const USART_SR_TXE: u32 = 7;

/// USART control register 1 bits.
pub const USART_CR1_RE: u32 = 2;
pub const USART_CR1_TE: u32 = 3;
pub const USART_CR1_TCIE: u32 = 6;
pub const USART_CR1_UE: u32 = 13;

/// ASCII line feed and carriage return.
pub const LF: u8 = 10;
pub const CR: u8 = 13;

/// The baud rate register value for a kernel clock and a baud rate: the
/// quotient rounded to the nearest integer, kept to its low 16 bits.
pub open spec fn baud_divisor(periph_clk: u32, baudrate: u32) -> int {
    ((periph_clk + baudrate / 2) / (baudrate as int)) % 0x1_0000
}

/// Compute the UART baud rate register value.
pub fn compute_uart_bd(periph_clk: u32, baudrate: u32) -> (bd: u16)
    requires
        baudrate > 0,
        periph_clk + baudrate / 2 <= u32::MAX,
    ensures
        bd == baud_divisor(periph_clk, baudrate),
{
    let q: u32 = (periph_clk + (baudrate / 2)) / baudrate;
    assert(q as u16 == q % 0x1_0000) by (bit_vector);
    q as u16
}

/// When the rounded quotient fits the register, it is the nearest divisor:
/// `bd * baudrate` lies within half a baud rate of the clock.
pub proof fn lemma_baud_divisor_nearest(periph_clk: u32, baudrate: u32)
    requires
        baudrate > 0,
        (periph_clk + baudrate / 2) / (baudrate as int) < 0x1_0000,
    ensures
        baud_divisor(periph_clk, baudrate) * baudrate <= periph_clk + baudrate / 2,
        periph_clk + baudrate / 2 < (baud_divisor(periph_clk, baudrate) + 1) * baudrate,
{
    let n: int = periph_clk + baudrate / 2;
    let b: int = baudrate as int;
    let q: int = n / b;
    assert(q % 0x1_0000 == q);
    assert(q * b <= n && n < (q + 1) * b) by (nonlinear_arith)
        requires
            b > 0,
            n >= 0,
            q == n / b,
    ;
}

/// Where no truncation happens, the divisor grows with the clock and
/// shrinks as the baud rate grows.
pub proof fn lemma_baud_divisor_monotonic(c1: u32, c2: u32, b1: u32, b2: u32)
    requires
        0 < b1 <= b2,
        c1 <= c2,
        (c2 + b1 / 2) / (b1 as int) < 0x1_0000,
    ensures
        baud_divisor(c1, b1) <= baud_divisor(c2, b1),
        baud_divisor(c2, b2) <= baud_divisor(c2, b1),
{
    let n1: int = c1 + b1 / 2;
    let n2: int = c2 + b1 / 2;
    let b: int = b1 as int;
    assert(n1 / b <= n2 / b) by (nonlinear_arith)
        requires
            0 <= n1 <= n2,
            b > 0,
    ;
    assert(0 <= n1 / b) by (nonlinear_arith)
        requires
            0 <= n1,
            b > 0,
    ;
    let m: int = c2 + b2 / 2;
    let d: int = b2 as int;
    let q2: int = m / d;
    let q1: int = n2 / b;
    assert(q2 * d <= m) by (nonlinear_arith)
        requires
            d > 0,
            m >= 0,
            q2 == m / d,
    ;
    assert(q2 >= 0) by (nonlinear_arith)
        requires
            d > 0,
            m >= 0,
            q2 == m / d,
    ;
    assert(q2 * b <= n2) by (nonlinear_arith)
        requires
            q2 * d <= c2 + d / 2,
            n2 == c2 + b / 2,
            0 < b <= d,
            q2 >= 0,
    {
        if q2 > 0 {
            assert(q2 * (d - b) >= d - b);
            assert(d / 2 - b / 2 <= d - b);
        }
    }
    assert(q2 <= q1) by (nonlinear_arith)
        requires
            q2 * b <= n2,
            b > 0,
            q1 == n2 / b,
    ;
    assert(q1 < 0x1_0000);
    assert(n1 / b < 0x1_0000);
    assert(q2 < 0x1_0000);
}

pub open spec fn spec_uart_set_baudrate(periph_clk: u32, baudrate: u32) -> BusOp {
    BusOp::Write { reg: Reg::Usart2Brr, value: baud_divisor(periph_clk, baudrate) as u32 }
}

/// Set the baud rate of USART2.
#[verifier::when_used_as_spec(spec_uart_set_baudrate)]
pub fn uart_set_baudrate(periph_clk: u32, baudrate: u32) -> (op: BusOp)
    requires
        baudrate > 0,
        periph_clk + baudrate / 2 <= u32::MAX,
    ensures
        op == spec_uart_set_baudrate(periph_clk, baudrate),
{
    let brr_val = compute_uart_bd(periph_clk, baudrate);
    BusOp::Write { reg: Reg::Usart2Brr, value: brr_val as u32 }
}

pub open spec fn spec_uart1_set_baudrate(periph_clk: u32, baudrate: u32) -> BusOp {
    BusOp::Write { reg: Reg::Usart1Brr, value: baud_divisor(periph_clk, baudrate) as u32 }
}

/// Set the baud rate of USART1.
#[verifier::when_used_as_spec(spec_uart1_set_baudrate)]
pub fn uart1_set_baudrate(periph_clk: u32, baudrate: u32) -> (op: BusOp)
    requires
        baudrate > 0,
        periph_clk + baudrate / 2 <= u32::MAX,
    ensures
        op == spec_uart1_set_baudrate(periph_clk, baudrate),
{
    let brr_val = compute_uart_bd(periph_clk, baudrate);
    BusOp::Write { reg: Reg::Usart1Brr, value: brr_val as u32 }
}

/// The plan of [`uart2_init`].
pub open spec fn uart2_init_plan(baudrate: u32) -> Seq<BusOp> {
    seq![
        set_bit(Reg::RccAhb1enr, 0),
        set_field(Reg::GpioaModer, 4, 2, 2),
        set_field(Reg::GpioaAfrl, 8, 4, 7),
        set_bit(Reg::RccApb1enr, 17),
        uart_set_baudrate(UART_CLOCK_HZ, baudrate),
        set_bit(Reg::Usart2Cr1, USART_CR1_TE),
        set_bit(Reg::Usart2Cr1, USART_CR1_UE),
    ]
}

/// USART2 as a transmitter on PA2 (AF7).
pub fn uart2_init(baudrate: u32) -> (ops: Vec<BusOp>)
    requires
        baudrate > 0,
    ensures
        ops@ == uart2_init_plan(baudrate),
{
    proof {
        vstd::arithmetic::power2::lemma2_to64();
    }
    let mut ops = Vec::new();
    ops.push(set_bit(Reg::RccAhb1enr, 0));
    ops.push(set_field(Reg::GpioaModer, 4, 2, 2));
    ops.push(set_field(Reg::GpioaAfrl, 8, 4, 7));
    ops.push(set_bit(Reg::RccApb1enr, 17));
    ops.push(uart_set_baudrate(UART_CLOCK_HZ, baudrate));
    ops.push(set_bit(Reg::Usart2Cr1, USART_CR1_TE));
    ops.push(set_bit(Reg::Usart2Cr1, USART_CR1_UE));
    ops
}

/// Whatever the registers held before, after [`uart2_init`] the GPIOA and
/// USART2 clocks run, PA2 is an alternate-function pin on AF7, the baud
/// rate register holds the rounded divisor of the 16 MHz clock, and the
/// transmitter and the USART are enabled.
/// No bit outside the masks of the plan's steps changes.
pub proof fn lemma_uart2_init_effect(regs: spec_fn(Reg) -> u32, baudrate: u32)
    requires
        baudrate > 0,
    ensures
        ({
            let r = run_plan(regs, uart2_init_plan(baudrate));
            &&& r(Reg::RccAhb1enr) & 1 != 0
            &&& field(r(Reg::GpioaModer), 4, 2) == 2
            &&& field(r(Reg::GpioaAfrl), 8, 4) == 7
            &&& r(Reg::RccApb1enr) & (1u32 << 17) != 0
            &&& r(Reg::Usart2Brr) == baud_divisor(UART_CLOCK_HZ, baudrate)
            &&& r(Reg::Usart2Cr1) & (1u32 << USART_CR1_TE) != 0
            &&& r(Reg::Usart2Cr1) & (1u32 << USART_CR1_UE) != 0
            &&& forall|reg: Reg|
                #![trigger r(reg)]
                r(reg) & !touched_mask(uart2_init_plan(baudrate), reg) == regs(reg) & !touched_mask(uart2_init_plan(baudrate), reg)
        }),
{
    broadcast use lemma_run_push, lemma_run_empty;
    lemma_run_plan_frame(regs, uart2_init_plan(baudrate));
    let p = uart2_init_plan(baudrate);
    assert(p =~= Seq::<BusOp>::empty().push(p[0]).push(p[1]).push(p[2]).push(p[3]).push(p[4]).push(
        p[5],
    ).push(p[6]));
    vstd::arithmetic::power2::lemma2_to64();
    lemma_set_clear_bit(regs(Reg::RccAhb1enr), 0);
    crate::bus::lemma_bit_constants();
    lemma_set_field(regs(Reg::GpioaModer), 4, 2, 2);
    lemma_set_field(regs(Reg::GpioaAfrl), 8, 4, 7);
    lemma_set_clear_bit(regs(Reg::RccApb1enr), 17);
    lemma_two_bits(regs(Reg::Usart2Cr1), USART_CR1_TE, USART_CR1_UE);
}

/// The plan of [`uart2_rx_init`].
pub open spec fn uart2_rx_init_plan(baudrate: u32) -> Seq<BusOp> {
    seq![
        set_bit(Reg::RccAhb1enr, 0),
        set_field(Reg::GpioaModer, 6, 2, 2),
        set_field(Reg::GpioaAfrl, 12, 4, 7),
        set_bit(Reg::RccApb1enr, 17),
        uart_set_baudrate(UART_CLOCK_HZ, baudrate),
        set_bit(Reg::Usart2Cr1, USART_CR1_RE),
        set_bit(Reg::Usart2Cr1, USART_CR1_UE),
    ]
}

/// USART2 as a receiver on PA3 (AF7).
pub fn uart2_rx_init(baudrate: u32) -> (ops: Vec<BusOp>)
    requires
        baudrate > 0,
    ensures
        ops@ == uart2_rx_init_plan(baudrate),
{
    proof {
        vstd::arithmetic::power2::lemma2_to64();
    }
    let mut ops = Vec::new();
    ops.push(set_bit(Reg::RccAhb1enr, 0));
    ops.push(set_field(Reg::GpioaModer, 6, 2, 2));
    ops.push(set_field(Reg::GpioaAfrl, 12, 4, 7));
    ops.push(set_bit(Reg::RccApb1enr, 17));
    ops.push(uart_set_baudrate(UART_CLOCK_HZ, baudrate));
    ops.push(set_bit(Reg::Usart2Cr1, USART_CR1_RE));
    ops.push(set_bit(Reg::Usart2Cr1, USART_CR1_UE));
    ops
}

/// The plan of [`uart2_rx_tx_init`].
pub open spec fn uart2_rx_tx_init_plan(baudrate: u32) -> Seq<BusOp> {
    seq![
        set_bit(Reg::RccAhb1enr, 0),
        set_field(Reg::GpioaModer, 4, 4, 0b1010),
        set_field(Reg::GpioaAfrl, 8, 8, 0x77),
        set_bit(Reg::RccApb1enr, 17),
        uart_set_baudrate(UART_CLOCK_HZ, baudrate),
        set_field(Reg::Usart2Cr1, USART_CR1_RE, 2, 0b11),
        set_bit(Reg::Usart2Cr1, USART_CR1_UE),
    ]
}

/// USART2 as transmitter and receiver on PA2/PA3 (AF7): both pin modes,
/// both alternate functions and both directions are set in one access
/// each.
pub fn uart2_rx_tx_init(baudrate: u32) -> (ops: Vec<BusOp>)
    requires
        baudrate > 0,
    ensures
        ops@ == uart2_rx_tx_init_plan(baudrate),
{
    proof {
        vstd::arithmetic::power2::lemma2_to64();
    }
    let mut ops = Vec::new();
    ops.push(set_bit(Reg::RccAhb1enr, 0));
    ops.push(set_field(Reg::GpioaModer, 4, 4, 0b1010));
    ops.push(set_field(Reg::GpioaAfrl, 8, 8, 0x77));
    ops.push(set_bit(Reg::RccApb1enr, 17));
    ops.push(uart_set_baudrate(UART_CLOCK_HZ, baudrate));
    ops.push(set_field(Reg::Usart2Cr1, USART_CR1_RE, 2, 0b11));
    ops.push(set_bit(Reg::Usart2Cr1, USART_CR1_UE));
    ops
}

/// The plan of [`uart1_rx_tx_init`].
pub open spec fn uart1_rx_tx_init_plan(baudrate: u32) -> Seq<BusOp> {
    seq![
        set_bit(Reg::RccAhb1enr, 0),
        set_field(Reg::GpioaModer, 18, 4, 0b1010),
        set_field(Reg::GpioaAfrh, 4, 8, 0x77),
        set_bit(Reg::RccApb2enr, 4),
        uart1_set_baudrate(UART_CLOCK_HZ, baudrate),
        set_field(Reg::Usart1Cr1, USART_CR1_RE, 2, 0b11),
        set_bit(Reg::Usart1Cr1, USART_CR1_UE),
    ]
}

/// USART1 as transmitter and receiver on PA9/PA10 (AF7).
pub fn uart1_rx_tx_init(baudrate: u32) -> (ops: Vec<BusOp>)
    requires
        baudrate > 0,
    ensures
        ops@ == uart1_rx_tx_init_plan(baudrate),
{
    proof {
        vstd::arithmetic::power2::lemma2_to64();
    }
    let mut ops = Vec::new();
    ops.push(set_bit(Reg::RccAhb1enr, 0));
    ops.push(set_field(Reg::GpioaModer, 18, 4, 0b1010));
    ops.push(set_field(Reg::GpioaAfrh, 4, 8, 0x77));
    ops.push(set_bit(Reg::RccApb2enr, 4));
    ops.push(uart1_set_baudrate(UART_CLOCK_HZ, baudrate));
    ops.push(set_field(Reg::Usart1Cr1, USART_CR1_RE, 2, 0b11));
    ops.push(set_bit(Reg::Usart1Cr1, USART_CR1_UE));
    ops
}

/// Whatever the registers held before, after [`uart2_rx_init`] the GPIOA
/// and USART2 clocks run, PA3 is an alternate-function pin on AF7, the
/// baud rate register holds the rounded divisor, and the receiver and the
/// USART are enabled.
/// No bit outside the masks of the plan's steps changes.
pub proof fn lemma_uart2_rx_init_effect(regs: spec_fn(Reg) -> u32, baudrate: u32)
    requires
        baudrate > 0,
    ensures
        ({
            let r = run_plan(regs, uart2_rx_init_plan(baudrate));
            &&& r(Reg::RccAhb1enr) & 1 != 0
            &&& field(r(Reg::GpioaModer), 6, 2) == 2
            &&& field(r(Reg::GpioaAfrl), 12, 4) == 7
            &&& r(Reg::RccApb1enr) & (1u32 << 17) != 0
            &&& r(Reg::Usart2Brr) == baud_divisor(UART_CLOCK_HZ, baudrate)
            &&& r(Reg::Usart2Cr1) & (1u32 << USART_CR1_RE) != 0
            &&& r(Reg::Usart2Cr1) & (1u32 << USART_CR1_UE) != 0
            &&& forall|reg: Reg|
                #![trigger r(reg)]
                r(reg) & !touched_mask(uart2_rx_init_plan(baudrate), reg) == regs(reg) & !touched_mask(uart2_rx_init_plan(baudrate), reg)
        }),
{
    broadcast use lemma_run_push, lemma_run_empty;
    lemma_run_plan_frame(regs, uart2_rx_init_plan(baudrate));
    let p = uart2_rx_init_plan(baudrate);
    assert(p =~= Seq::<BusOp>::empty().push(p[0]).push(p[1]).push(p[2]).push(p[3]).push(p[4]).push(
        p[5],
    ).push(p[6]));
    vstd::arithmetic::power2::lemma2_to64();
    lemma_set_clear_bit(regs(Reg::RccAhb1enr), 0);
    crate::bus::lemma_bit_constants();
    lemma_set_field(regs(Reg::GpioaModer), 6, 2, 2);
    lemma_set_field(regs(Reg::GpioaAfrl), 12, 4, 7);
    lemma_set_clear_bit(regs(Reg::RccApb1enr), 17);
    lemma_two_bits(regs(Reg::Usart2Cr1), USART_CR1_RE, USART_CR1_UE);
}

/// Whatever the registers held before, after [`uart2_rx_tx_init`] the GPIOA
/// and USART2 clocks run, PA2 and PA3 are alternate-function pins on AF7
/// (both 2-bit mode fields `10`, both 4-bit function fields 7), the baud
/// rate register holds the rounded divisor, and receiver, transmitter and
/// USART are enabled (RE and TE form the 2-bit field at bit 2).
/// No bit outside the masks of the plan's steps changes.
pub proof fn lemma_uart2_rx_tx_init_effect(regs: spec_fn(Reg) -> u32, baudrate: u32)
    requires
        baudrate > 0,
    ensures
        ({
            let r = run_plan(regs, uart2_rx_tx_init_plan(baudrate));
            &&& r(Reg::RccAhb1enr) & 1 != 0
            &&& field(r(Reg::GpioaModer), 4, 4) == 0b1010
            &&& field(r(Reg::GpioaAfrl), 8, 8) == 0x77
            &&& r(Reg::RccApb1enr) & (1u32 << 17) != 0
            &&& r(Reg::Usart2Brr) == baud_divisor(UART_CLOCK_HZ, baudrate)
            &&& field(r(Reg::Usart2Cr1), USART_CR1_RE, 2) == 0b11
            &&& r(Reg::Usart2Cr1) & (1u32 << USART_CR1_UE) != 0
            &&& forall|reg: Reg|
                #![trigger r(reg)]
                r(reg) & !touched_mask(uart2_rx_tx_init_plan(baudrate), reg) == regs(reg) & !touched_mask(uart2_rx_tx_init_plan(baudrate), reg)
        }),
{
    broadcast use lemma_run_push, lemma_run_empty;
    lemma_run_plan_frame(regs, uart2_rx_tx_init_plan(baudrate));
    let p = uart2_rx_tx_init_plan(baudrate);
    assert(p =~= Seq::<BusOp>::empty().push(p[0]).push(p[1]).push(p[2]).push(p[3]).push(p[4]).push(
        p[5],
    ).push(p[6]));
    vstd::arithmetic::power2::lemma2_to64();
    lemma_set_clear_bit(regs(Reg::RccAhb1enr), 0);
    crate::bus::lemma_bit_constants();
    lemma_set_field(regs(Reg::GpioaModer), 4, 4, 0b1010);
    lemma_set_field(regs(Reg::GpioaAfrl), 8, 8, 0x77);
    lemma_set_clear_bit(regs(Reg::RccApb1enr), 17);
    lemma_field_then_bit(regs(Reg::Usart2Cr1), USART_CR1_RE, 2, 0b11, USART_CR1_UE);
}

/// Whatever the registers held before, after [`uart1_rx_tx_init`] the GPIOA
/// and USART1 clocks run, PA9 and PA10 are alternate-function pins on AF7,
/// the baud rate register holds the rounded divisor, and receiver,
/// transmitter and USART are enabled.
/// No bit outside the masks of the plan's steps changes.
pub proof fn lemma_uart1_rx_tx_init_effect(regs: spec_fn(Reg) -> u32, baudrate: u32)
    requires
        baudrate > 0,
    ensures
        ({
            let r = run_plan(regs, uart1_rx_tx_init_plan(baudrate));
            &&& r(Reg::RccAhb1enr) & 1 != 0
            &&& field(r(Reg::GpioaModer), 18, 4) == 0b1010
            &&& field(r(Reg::GpioaAfrh), 4, 8) == 0x77
            &&& r(Reg::RccApb2enr) & (1u32 << 4) != 0
            &&& r(Reg::Usart1Brr) == baud_divisor(UART_CLOCK_HZ, baudrate)
            &&& field(r(Reg::Usart1Cr1), USART_CR1_RE, 2) == 0b11
            &&& r(Reg::Usart1Cr1) & (1u32 << USART_CR1_UE) != 0
            &&& forall|reg: Reg|
                #![trigger r(reg)]
                r(reg) & !touched_mask(uart1_rx_tx_init_plan(baudrate), reg) == regs(reg) & !touched_mask(uart1_rx_tx_init_plan(baudrate), reg)
        }),
{
    broadcast use lemma_run_push, lemma_run_empty;
    lemma_run_plan_frame(regs, uart1_rx_tx_init_plan(baudrate));
    let p = uart1_rx_tx_init_plan(baudrate);
    assert(p =~= Seq::<BusOp>::empty().push(p[0]).push(p[1]).push(p[2]).push(p[3]).push(p[4]).push(
        p[5],
    ).push(p[6]));
    vstd::arithmetic::power2::lemma2_to64();
    lemma_set_clear_bit(regs(Reg::RccAhb1enr), 0);
    crate::bus::lemma_bit_constants();
    lemma_set_field(regs(Reg::GpioaModer), 18, 4, 0b1010);
    lemma_set_field(regs(Reg::GpioaAfrh), 4, 8, 0x77);
    lemma_set_clear_bit(regs(Reg::RccApb2enr), 4);
    lemma_field_then_bit(regs(Reg::Usart1Cr1), USART_CR1_RE, 2, 0b11, USART_CR1_UE);
}

/// The operations that put one byte on the USART2 line: wait for an empty
/// transmit register, then write the byte.
pub open spec fn tx_ops(ch: u8) -> Seq<BusOp> {
    seq![
        BusOp::WaitSet { reg: Reg::Usart2Sr, mask: 1u32 << USART_SR_TXE },
        BusOp::Write { reg: Reg::Usart2Dr, value: ch as u32 },
    ]
}

/// The operations that transmit every byte of `s` in order.
pub open spec fn tx_all(s: Seq<u8>) -> Seq<BusOp>
    decreases s.len(),
{
    if s.len() == 0 {
        Seq::empty()
    } else {
        tx_all(s.drop_last()) + tx_ops(s.last())
    }
}

/// The bytes that a plan writes to USART2's data register with
/// [`BusOp::Write`], in order. The digits that a [`BusOp::SendSampleHex`]
/// step sends depend on the register value read at run time and are not
/// counted here.
pub open spec fn transmitted(ops: Seq<BusOp>) -> Seq<u8>
    decreases ops.len(),
{
    if ops.len() == 0 {
        Seq::empty()
    } else {
        let rest = transmitted(ops.drop_last());
        match ops.last() {
            BusOp::Write { reg: Reg::Usart2Dr, value } => rest.push(value as u8),
            _ => rest,
        }
    }
}

/// Transmit one byte on USART2.
pub fn uart_write(ch: u8) -> (ops: Vec<BusOp>)
    ensures
        ops@ == tx_ops(ch),
{
    let mut ops = Vec::new();
    ops.push(BusOp::WaitSet { reg: Reg::Usart2Sr, mask: 1u32 << USART_SR_TXE });
    let v: u32 = ch as u32 & 0xFF;
    assert(v == ch as u32) by (bit_vector)
        requires
            v == ch as u32 & 0xFF,
    ;
    ops.push(BusOp::Write { reg: Reg::Usart2Dr, value: v });
    ops
}

/// Line endings as a terminal expects them: each line feed is preceded by
/// an inserted carriage return.
pub open spec fn crlf(s: Seq<u8>) -> Seq<u8>
    decreases s.len(),
{
    if s.len() == 0 {
        Seq::empty()
    } else if s.last() == LF {
        crlf(s.drop_last()).push(CR).push(LF)
    } else {
        crlf(s.drop_last()).push(s.last())
    }
}

/// Removes, in front of each line feed, one carriage return.
pub open spec fn uncrlf(s: Seq<u8>) -> Seq<u8>
    decreases s.len(),
{
    if s.len() == 0 {
        Seq::empty()
    } else if s.len() >= 2 && s.last() == LF && s[s.len() - 2] == CR {
        uncrlf(s.drop_last().drop_last()).push(LF)
    } else {
        uncrlf(s.drop_last()).push(s.last())
    }
}

/// The number of line feeds in `s`.
pub open spec fn count_lf(s: Seq<u8>) -> nat
    decreases s.len(),
{
    if s.len() == 0 {
        0
    } else {
        count_lf(s.drop_last()) + if s.last() == LF { 1nat } else { 0nat }
    }
}

proof fn lemma_tx_all_push(s: Seq<u8>, b: u8)
    ensures
        tx_all(s.push(b)) == tx_all(s) + tx_ops(b),
{
    assert(s.push(b).drop_last() =~= s);
}

/// The operations built by `tx_all` write exactly the given bytes to the
/// data register.
pub proof fn lemma_transmitted_tx_all(s: Seq<u8>)
    ensures
        transmitted(tx_all(s)) == s,
    decreases s.len(),
{
    if s.len() > 0 {
        let p = tx_all(s.drop_last());
        lemma_transmitted_tx_all(s.drop_last());
        let b = s.last();
        let q = p + tx_ops(b);
        assert(q.drop_last() =~= p.push(tx_ops(b)[0]));
        assert(q.drop_last().drop_last() =~= p);
        assert(q.last() == tx_ops(b)[1]);
        assert((b as u32) as u8 == b) by (bit_vector);
        assert(transmitted(p.push(tx_ops(b)[0])) == transmitted(p)) by {
            assert(p.push(tx_ops(b)[0]).drop_last() =~= p);
        }
        assert(s.drop_last().push(b) =~= s);
    }
}

/// Stripping the inserted carriage returns gives the text back.
pub proof fn lemma_crlf_reversible(s: Seq<u8>)
    ensures
        uncrlf(crlf(s)) == s,
    decreases s.len(),
{
    if s.len() > 0 {
        lemma_crlf_reversible(s.drop_last());
        let c = crlf(s.drop_last());
        if s.last() == LF {
            let t = c.push(CR).push(LF);
            assert(t.drop_last().drop_last() =~= c);
            assert(t[t.len() - 2] == CR);
        } else {
            let t = c.push(s.last());
            assert(t.drop_last() =~= c);
        }
        assert(s.drop_last().push(s.last()) =~= s);
    }
}

/// The translation adds exactly one byte per line feed, and every line
/// feed it sends directly follows a carriage return.
pub proof fn lemma_crlf_shape(s: Seq<u8>)
    ensures
        crlf(s).len() == s.len() + count_lf(s),
        forall|i: int| 0 <= i < crlf(s).len() && #[trigger] crlf(s)[i] == LF ==> i >= 1 && crlf(
            s,
        )[i - 1] == CR,
    decreases s.len(),
{
    if s.len() > 0 {
        lemma_crlf_shape(s.drop_last());
    }
}

/// Transmit the bytes `bytes` on USART2, each line feed preceded by a
/// carriage return.
pub fn uart2_send(bytes: &[u8]) -> (ops: Vec<BusOp>)
    ensures
        ops@ == tx_all(crlf(bytes@)),
{
    let mut ops: Vec<BusOp> = Vec::new();
    let ghost mut framed: Seq<u8> = Seq::empty();
    let n = bytes.len();
    let mut i: usize = 0;
    while i < n
        invariant
            n == bytes@.len(),
            i <= n,
            framed == crlf(bytes@.take(i as int)),
            ops@ == tx_all(framed),
        decreases n - i,
    {
        let b = bytes[i];
        assert(bytes@.take(i + 1).drop_last() =~= bytes@.take(i as int));
        if b == LF {
            let mut cr_ops = uart_write(CR);
            ops.append(&mut cr_ops);
            proof {
                lemma_tx_all_push(framed, CR);
                framed = framed.push(CR);
            }
        }
        let mut b_ops = uart_write(b);
        ops.append(&mut b_ops);
        proof {
            lemma_tx_all_push(framed, b);
            framed = framed.push(b);
        }
        i = i + 1;
    }
    assert(bytes@.take(n as int) =~= bytes@);
    ops
}

/// The operations that print `s` on USART2.
pub open spec fn print_ops(s: &str) -> Seq<BusOp> {
    tx_all(crlf(s.spec_bytes()))
}

/// Print a string on USART2, translating line feeds to CR LF.
pub fn uart2_print(s: &str) -> (ops: Vec<BusOp>)
    ensures
        ops@ == print_ops(s),
{
    uart2_send(s.as_bytes())
}

/// USART1 receive with waiting: poll until a byte arrived, then take it.
pub fn uart1_read() -> (ops: Vec<BusOp>)
    ensures
        ops@ == seq![
            BusOp::WaitSet { reg: Reg::Usart1Sr, mask: 1u32 << USART_SR_RXNE },
            BusOp::Receive { reg: Reg::Usart1Dr },
        ],
{
    let mut ops = Vec::new();
    ops.push(BusOp::WaitSet { reg: Reg::Usart1Sr, mask: 1u32 << USART_SR_RXNE });
    ops.push(BusOp::Receive { reg: Reg::Usart1Dr });
    ops
}

/// A receive error (overrun, framing or noise) is flagged in a status word.
pub open spec fn rx_error(sr: u32) -> bool {
    sr & (1u32 << USART_SR_ORE) != 0 || sr & (1u32 << USART_SR_FE) != 0 || sr & (1u32
        << USART_SR_NF) != 0
}

/// A received byte waits in the data register.
pub open spec fn rx_ready(sr: u32) -> bool {
    sr & (1u32 << USART_SR_RXNE) != 0
}

/// States of a non-blocking receive.
#[derive(Clone, Copy, Debug, PartialEq, Eq, Structural)]
pub enum RxState {
    /// The next value is a status word to check for receive errors.
    CheckErrors,
    /// The next value is a status word to check for a received byte.
    CheckReady,
    /// The next value is a data word read only to clear an error.
    Discarding,
    /// The next value is the data word holding the received byte.
    Fetching,
}

/// What the runtime does next for a receive.
#[derive(Clone, Copy, Debug, PartialEq, Eq, Structural)]
pub enum RxAction {
    /// Read the status register and feed its value.
    ReadStatus,
    /// Read the data register and feed its value.
    ReadData,
    /// The receive is over with this result.
    Finish { byte: Option<u8> },
}

/// The transition of a receive on the value read for its last action.
pub open spec fn rx_next(state: RxState, value: u32) -> (RxState, RxAction) {
    match state {
        RxState::CheckErrors => if rx_error(value) {
            (RxState::Discarding, RxAction::ReadData)
        } else {
            (RxState::CheckReady, RxAction::ReadStatus)
        },
        RxState::CheckReady => if rx_ready(value) {
            (RxState::Fetching, RxAction::ReadData)
        } else {
            (RxState::CheckReady, RxAction::Finish { byte: None })
        },
        RxState::Discarding => (RxState::Discarding, RxAction::Finish { byte: None }),
        RxState::Fetching => (RxState::Fetching, RxAction::Finish { byte: Some(value as u8) }),
    }
}

/// Advance a receive with the value of the register that its last action
/// read.
pub fn rx_step(state: RxState, value: u32) -> (r: (RxState, RxAction))
    ensures
        r == rx_next(state, value),
{
    match state {
        RxState::CheckErrors => {
            if value & (1u32 << USART_SR_ORE) != 0 || value & (1u32 << USART_SR_FE) != 0 || value
                & (1u32 << USART_SR_NF) != 0 {
                (RxState::Discarding, RxAction::ReadData)
            } else {
                (RxState::CheckReady, RxAction::ReadStatus)
            }
        },
        RxState::CheckReady => {
            if value & (1u32 << USART_SR_RXNE) != 0 {
                (RxState::Fetching, RxAction::ReadData)
            } else {
                (RxState::CheckReady, RxAction::Finish { byte: None })
            }
        },
        RxState::Discarding => (RxState::Discarding, RxAction::Finish { byte: None }),
        RxState::Fetching => (RxState::Fetching, RxAction::Finish { byte: Some(value as u8) }),
    }
}

/// Receive on USART2 without waiting: look at the status once; when a byte
/// waits, take it.
pub fn uart_read() -> (r: (RxState, RxAction))
    ensures
        r == (RxState::CheckReady, RxAction::ReadStatus),
{
    (RxState::CheckReady, RxAction::ReadStatus)
}

/// Receive on USART1 without waiting: a receive error is cleared by reading
/// the data register and gives nothing; otherwise the status is read again
/// and a waiting byte is taken.
pub fn uart1_try_read() -> (r: (RxState, RxAction))
    ensures
        r == (RxState::CheckErrors, RxAction::ReadStatus),
{
    (RxState::CheckErrors, RxAction::ReadStatus)
}

/// The whole of a non-blocking USART1 receive, for a first status word
/// `s1`, a second one `s2` and a data word `d`: an error flag in `s1` reads
/// the data register and gives nothing; otherwise a set RXNE in `s2` reads
/// the data register and gives its low byte; otherwise nothing is read and
/// nothing is given.
pub proof fn lemma_try_read_outcome(s1: u32, s2: u32, d: u32)
    ensures
        rx_error(s1) ==> {
            let (st, act) = rx_next(RxState::CheckErrors, s1);
            act == RxAction::ReadData && rx_next(st, d).1 == (RxAction::Finish { byte: None })
        },
        !rx_error(s1) && rx_ready(s2) ==> {
            let (st, act) = rx_next(RxState::CheckErrors, s1);
            let (st2, act2) = rx_next(st, s2);
            act == RxAction::ReadStatus && act2 == RxAction::ReadData && rx_next(st2, d).1 == (
            RxAction::Finish { byte: Some((d % 256) as u8) })
        },
        !rx_error(s1) && !rx_ready(s2) ==> {
            let (st, act) = rx_next(RxState::CheckErrors, s1);
            act == RxAction::ReadStatus && rx_next(st, s2).1 == (RxAction::Finish { byte: None })
        },
{
    assert(d as u8 == (d % 256) as u8) by (bit_vector);
}

/// The receive decisions bit by bit, for any status word `sr` and data
/// word `d`. A status check reads the data register exactly when RXNE (bit
/// 5, the value 0x20) is set in `sr`, whatever its other bits hold (TXE and
/// TC are set whenever the transmitter is idle), and then gives the low
/// byte of `d`; with RXNE clear it gives nothing. An error check reads the
/// data register to clear the error, and gives nothing, exactly when an
/// overrun, framing error or noise (bits 3, 1 and 2, together 0x0E) is
/// flagged; otherwise it goes on to the status check.
pub proof fn lemma_rx_status_bits(sr: u32, d: u32)
    ensures
        ({
            let (st, act) = rx_next(RxState::CheckReady, sr);
            &&& (act == RxAction::ReadData) <==> sr & 0x20 != 0
            &&& sr & 0x20 != 0 ==> rx_next(st, d).1 == (RxAction::Finish {
                byte: Some((d % 256) as u8),
            })
            &&& sr & 0x20 == 0 ==> act == (RxAction::Finish { byte: None })
        }),
        ({
            let (st, act) = rx_next(RxState::CheckErrors, sr);
            &&& (act == RxAction::ReadData) <==> sr & 0x0E != 0
            &&& sr & 0x0E != 0 ==> rx_next(st, d).1 == (RxAction::Finish { byte: None })
            &&& sr & 0x0E == 0 ==> st == RxState::CheckReady && act == RxAction::ReadStatus
        }),
{
    crate::bus::lemma_bit_constants();
    assert((sr & 8 != 0 || sr & 2 != 0 || sr & 4 != 0) <==> sr & 0x0E != 0) by (bit_vector);
    assert(d as u8 == (d % 256) as u8) by (bit_vector);
}

/// Transmitting on the console consists of console steps only.
pub broadcast proof fn lemma_without_console_tx_all(s: Seq<u8>)
    ensures
        #[trigger] without_console(tx_all(s)) == Seq::<BusOp>::empty(),
    decreases s.len(),
{
    broadcast use lemma_without_console_concat, lemma_without_console_single;

    if s.len() > 0 {
        lemma_without_console_tx_all(s.drop_last());
        let t = tx_ops(s.last());
        assert(t =~= seq![t[0]] + seq![t[1]]);
        assert(without_console(tx_all(s.drop_last())) + without_console(t) =~= Seq::<
            BusOp,
        >::empty());
    }
}

/// Transmitting on the console changes, in the register model, no
/// register but USART2's data register.
pub proof fn lemma_tx_all_keeps(regs: spec_fn(Reg) -> u32, s: Seq<u8>, reg: Reg)
    requires
        reg != Reg::Usart2Dr,
    ensures
        run_plan(regs, tx_all(s))(reg) == regs(reg),
    decreases s.len(),
{
    broadcast use lemma_run_push, lemma_run_empty;

    if s.len() > 0 {
        lemma_tx_all_keeps(regs, s.drop_last(), reg);
        let t = tx_ops(s.last());
        assert(t =~= Seq::<BusOp>::empty().push(t[0]).push(t[1]));
        crate::bus::lemma_run_concat(regs, tx_all(s.drop_last()), t);
    }
}

} // verus!

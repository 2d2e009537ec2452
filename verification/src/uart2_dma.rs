//! USART2 at 115200 baud driven by DMA1 stream 6 for transmission.
use vstd::prelude::*;
use crate::bus::{
    BusOp, Irq, Reg, field, field_mask, modified, run_plan, lemma_run_push, lemma_run_empty,
    touched_mask, lemma_run_plan_frame, lemma_cleared, reg_address,
    lemma_set_clear_bit, lemma_two_bits, lemma_two_fields, clear_bit, set_bit, set_field, wait_clear, spec_clear_bit, spec_set_bit,
    spec_set_field, spec_wait_clear,
};
use crate::uart::{
    baud_divisor,
    UART_CLOCK_HZ, USART_CR1_RE, USART_CR1_TCIE, USART_CR1_TE, USART_CR1_UE, USART_SR_TC,
    spec_uart_set_baudrate, uart_set_baudrate,
};

verus! {

/// Baud rate of the DMA console.
pub const DMA_BAUDRATE: u32 = 115200;

/// USART control register 3 bits.
pub const USART_CR3_DMAR: u32 = 6;
pub const USART_CR3_DMAT: u32 = 7;

/// DMA stream control register fields.
pub const DMA_SCR_EN: u32 = 0;
pub const DMA_SCR_TCIE: u32 = 4;
pub const DMA_SCR_DIR: u32 = 6;
pub const DMA_SCR_MINC: u32 = 10;
pub const DMA_SCR_CHSEL: u32 = 25;

/// The stream 6 clear bits of HIFCR for the direct-mode-error (CDMEIF6,
/// bit 18), transfer-error (CTEIF6, bit 19) and transfer-complete (CTCIF6,
/// bit 21) flags; writing a one clears the flag of the same position in
/// HISR.
pub const DMA_STREAM6_CLEAR_FLAGS: u32 = 0x002C_0000;

/// The plan of [`uart2_rx_tx_init`].
pub open spec fn dma_console_init_plan() -> Seq<BusOp> {
    seq![
        set_bit(Reg::RccAhb1enr, 0),
        set_field(Reg::GpioaModer, 4, 2, 2),
        set_field(Reg::GpioaModer, 6, 2, 2),
        set_field(Reg::GpioaAfrl, 8, 4, 7),
        set_field(Reg::GpioaAfrl, 12, 4, 7),
        set_bit(Reg::RccApb1enr, 17),
        uart_set_baudrate(UART_CLOCK_HZ, DMA_BAUDRATE),
        set_bit(Reg::Usart2Cr3, USART_CR3_DMAT),
        set_bit(Reg::Usart2Cr3, USART_CR3_DMAR),
        set_bit(Reg::Usart2Cr1, USART_CR1_TE),
        set_bit(Reg::Usart2Cr1, USART_CR1_RE),
        clear_bit(Reg::Usart2Sr, USART_SR_TC),
        set_bit(Reg::Usart2Cr1, USART_CR1_TCIE),
        set_bit(Reg::Usart2Cr1, USART_CR1_UE),
        BusOp::Unmask { irq: Irq::Usart2 },
    ]
}

/// USART2 with DMA requests for both directions, its transmit-complete
/// interrupt, and its NVIC line enabled.
pub fn uart2_rx_tx_init() -> (ops: Vec<BusOp>)
    ensures
        ops@ == dma_console_init_plan(),
{
    proof {
        vstd::arithmetic::power2::lemma2_to64();
    }
    let mut ops = Vec::new();
    ops.push(set_bit(Reg::RccAhb1enr, 0));
    ops.push(set_field(Reg::GpioaModer, 4, 2, 2));
    ops.push(set_field(Reg::GpioaModer, 6, 2, 2));
    ops.push(set_field(Reg::GpioaAfrl, 8, 4, 7));
    ops.push(set_field(Reg::GpioaAfrl, 12, 4, 7));
    ops.push(set_bit(Reg::RccApb1enr, 17));
    ops.push(uart_set_baudrate(UART_CLOCK_HZ, DMA_BAUDRATE));
    ops.push(set_bit(Reg::Usart2Cr3, USART_CR3_DMAT));
    ops.push(set_bit(Reg::Usart2Cr3, USART_CR3_DMAR));
    ops.push(set_bit(Reg::Usart2Cr1, USART_CR1_TE));
    ops.push(set_bit(Reg::Usart2Cr1, USART_CR1_RE));
    ops.push(clear_bit(Reg::Usart2Sr, USART_SR_TC));
    ops.push(set_bit(Reg::Usart2Cr1, USART_CR1_TCIE));
    ops.push(set_bit(Reg::Usart2Cr1, USART_CR1_UE));
    ops.push(BusOp::Unmask { irq: Irq::Usart2 });
    ops
}

/// Whatever the registers held before, after [`uart2_rx_tx_init`] the GPIOA
/// and USART2 clocks run, PA2 and PA3 are alternate-function pins on AF7,
/// the baud rate register holds the divisor for 115200 baud, both DMA
/// requests are on, the transmit-complete flag is clear, and transmitter,
/// receiver, transmit-complete interrupt and USART are enabled.
/// No bit outside the masks of the plan's steps changes.
pub proof fn lemma_dma_console_init_effect(regs: spec_fn(Reg) -> u32)
    ensures
        ({
            let r = run_plan(regs, dma_console_init_plan());
            &&& r(Reg::RccAhb1enr) & 1 != 0
            &&& field(r(Reg::GpioaModer), 4, 2) == 2
            &&& field(r(Reg::GpioaModer), 6, 2) == 2
            &&& field(r(Reg::GpioaAfrl), 8, 4) == 7
            &&& field(r(Reg::GpioaAfrl), 12, 4) == 7
            &&& r(Reg::RccApb1enr) & (1u32 << 17) != 0
            &&& r(Reg::Usart2Brr) == baud_divisor(UART_CLOCK_HZ, DMA_BAUDRATE)
            &&& r(Reg::Usart2Cr3) & (1u32 << USART_CR3_DMAT) != 0
            &&& r(Reg::Usart2Cr3) & (1u32 << USART_CR3_DMAR) != 0
            &&& r(Reg::Usart2Sr) & (1u32 << USART_SR_TC) == 0
            &&& r(Reg::Usart2Cr1) & (1u32 << USART_CR1_TE) != 0
            &&& r(Reg::Usart2Cr1) & (1u32 << USART_CR1_RE) != 0
            &&& r(Reg::Usart2Cr1) & (1u32 << USART_CR1_TCIE) != 0
            &&& r(Reg::Usart2Cr1) & (1u32 << USART_CR1_UE) != 0
            &&& forall|reg: Reg|
                #![trigger r(reg)]
                r(reg) & !touched_mask(dma_console_init_plan(), reg) == regs(reg) & !touched_mask(dma_console_init_plan(), reg)
        }),
{
    broadcast use lemma_run_push, lemma_run_empty;
    lemma_run_plan_frame(regs, dma_console_init_plan());
    let p = dma_console_init_plan();
    assert(p =~= Seq::<BusOp>::empty().push(p[0]).push(p[1]).push(p[2]).push(p[3]).push(p[4]).push(
        p[5],
    ).push(p[6]).push(p[7]).push(p[8]).push(p[9]).push(p[10]).push(p[11]).push(p[12]).push(
        p[13],
    ).push(p[14]));
    vstd::arithmetic::power2::lemma2_to64();
    lemma_set_clear_bit(regs(Reg::RccAhb1enr), 0);
    crate::bus::lemma_bit_constants();
    lemma_two_fields(regs(Reg::GpioaModer), 4, 2, 2, 6, 2, 2);
    lemma_two_fields(regs(Reg::GpioaAfrl), 8, 4, 7, 12, 4, 7);
    lemma_set_clear_bit(regs(Reg::RccApb1enr), 17);
    lemma_two_bits(regs(Reg::Usart2Cr3), USART_CR3_DMAT, USART_CR3_DMAR);
    lemma_set_clear_bit(regs(Reg::Usart2Sr), USART_SR_TC);
    let x = regs(Reg::Usart2Cr1);
    let c = modified(
        modified(
            modified(modified(x, 1u32 << 3u32, 1u32 << 3u32), 1u32 << 2u32, 1u32 << 2u32),
            1u32 << 6u32,
            1u32 << 6u32,
        ),
        1u32 << 13u32,
        1u32 << 13u32,
    );
    assert(c & (1u32 << 3u32) != 0 && c & (1u32 << 2u32) != 0 && c & (1u32 << 6u32) != 0 && c & (
    1u32 << 13u32) != 0) by (bit_vector)
        requires
            c == modified(
                modified(
                    modified(modified(x, 1u32 << 3u32, 1u32 << 3u32), 1u32 << 2u32, 1u32 << 2u32),
                    1u32 << 6u32,
                    1u32 << 6u32,
                ),
                1u32 << 13u32,
                1u32 << 13u32,
            ),
    ;
}

/// Clock DMA1 and enable the stream 6 interrupt in the NVIC.
pub fn dma1_init() -> (ops: Vec<BusOp>)
    ensures
        ops@ == seq![set_bit(Reg::RccAhb1enr, 21), BusOp::Unmask { irq: Irq::Dma1Stream6 }],
{
    let mut ops = Vec::new();
    ops.push(set_bit(Reg::RccAhb1enr, 21));
    ops.push(BusOp::Unmask { irq: Irq::Dma1Stream6 });
    ops
}

/// The plan of [`dma1_stream6_uart_tx_config`].
pub open spec fn dma1_stream6_uart_tx_config_plan(msg_to_send: u32, msg_len: u32) -> Seq<BusOp> {
    seq![
        clear_bit(Reg::Dma1S6Cr, DMA_SCR_EN),
        wait_clear(Reg::Dma1S6Cr, DMA_SCR_EN),
        BusOp::Write { reg: Reg::Dma1Hifcr, value: DMA_STREAM6_CLEAR_FLAGS },
        BusOp::WriteAddressOf { reg: Reg::Dma1S6Par, target: Reg::Usart2Dr },
        BusOp::Write { reg: Reg::Dma1S6M0ar, value: msg_to_send },
        BusOp::Write { reg: Reg::Dma1S6Ndtr, value: msg_len },
        set_field(Reg::Dma1S6Cr, DMA_SCR_CHSEL, 3, 4),
        set_bit(Reg::Dma1S6Cr, DMA_SCR_MINC),
        set_field(Reg::Dma1S6Cr, DMA_SCR_DIR, 2, 1),
        set_bit(Reg::Dma1S6Cr, DMA_SCR_TCIE),
        set_bit(Reg::Dma1S6Cr, DMA_SCR_EN),
    ]
}

/// Configure DMA1 stream 6 to send `msg_len` bytes from address
/// `msg_to_send` to USART2's data register (channel 4, memory to
/// peripheral, memory increment, transfer-complete interrupt), and start
/// it. The stream is disabled and drained first, and its direct-mode-error,
/// transfer-error and transfer-complete flags are cleared before it is
/// enabled. The number of bytes goes into the 16-bit NDTR register, so it
/// is at most 0xFFFF.
pub fn dma1_stream6_uart_tx_config(msg_to_send: u32, msg_len: u32) -> (ops: Vec<BusOp>)
    requires
        msg_len <= 0xFFFF,
    ensures
        ops@ == dma1_stream6_uart_tx_config_plan(msg_to_send, msg_len),
{
    proof {
        vstd::arithmetic::power2::lemma2_to64();
    }
    let mut ops = Vec::new();
    ops.push(clear_bit(Reg::Dma1S6Cr, DMA_SCR_EN));
    ops.push(wait_clear(Reg::Dma1S6Cr, DMA_SCR_EN));
    ops.push(BusOp::Write { reg: Reg::Dma1Hifcr, value: DMA_STREAM6_CLEAR_FLAGS });
    ops.push(BusOp::WriteAddressOf { reg: Reg::Dma1S6Par, target: Reg::Usart2Dr });
    ops.push(BusOp::Write { reg: Reg::Dma1S6M0ar, value: msg_to_send });
    ops.push(BusOp::Write { reg: Reg::Dma1S6Ndtr, value: msg_len });
    ops.push(set_field(Reg::Dma1S6Cr, DMA_SCR_CHSEL, 3, 4));
    ops.push(set_bit(Reg::Dma1S6Cr, DMA_SCR_MINC));
    ops.push(set_field(Reg::Dma1S6Cr, DMA_SCR_DIR, 2, 1));
    ops.push(set_bit(Reg::Dma1S6Cr, DMA_SCR_TCIE));
    ops.push(set_bit(Reg::Dma1S6Cr, DMA_SCR_EN));
    ops
}

/// Whatever the registers held before, after
/// [`dma1_stream6_uart_tx_config`] stream 6 is enabled on channel 4,
/// memory to peripheral, with memory increment and the transfer-complete
/// interrupt; it reads from `msg_to_send` and counts `msg_len` bytes; its
/// peripheral address is that of USART2's data register, so the bytes go
/// out on the USART2 console; the stream's direct-mode-error, transfer-error and transfer-complete flags
/// in HISR are clear; and no bit outside the plan's masks has changed.
pub proof fn lemma_dma1_stream6_config_effect(
    regs: spec_fn(Reg) -> u32,
    msg_to_send: u32,
    msg_len: u32,
)
    requires
        msg_len <= 0xFFFF,
    ensures
        ({
            let r = run_plan(regs, dma1_stream6_uart_tx_config_plan(msg_to_send, msg_len));
            &&& field(r(Reg::Dma1S6Cr), DMA_SCR_CHSEL, 3) == 4
            &&& field(r(Reg::Dma1S6Cr), DMA_SCR_DIR, 2) == 1
            &&& r(Reg::Dma1S6Cr) & (1u32 << DMA_SCR_MINC) != 0
            &&& r(Reg::Dma1S6Cr) & (1u32 << DMA_SCR_TCIE) != 0
            &&& r(Reg::Dma1S6Cr) & (1u32 << DMA_SCR_EN) != 0
            &&& r(Reg::Dma1S6M0ar) == msg_to_send
            &&& r(Reg::Dma1S6Ndtr) == msg_len
            &&& r(Reg::Dma1S6Par) == reg_address(Reg::Usart2Dr)
            &&& r(Reg::Dma1S6Par) == 0x4000_4404
            &&& r(Reg::Dma1Hisr) & DMA_STREAM6_CLEAR_FLAGS == 0
            &&& forall|reg: Reg|
                #![trigger r(reg)]
                r(reg) & !touched_mask(
                    dma1_stream6_uart_tx_config_plan(msg_to_send, msg_len),
                    reg,
                ) == regs(reg) & !touched_mask(
                    dma1_stream6_uart_tx_config_plan(msg_to_send, msg_len),
                    reg,
                )
        }),
{
    broadcast use lemma_run_push, lemma_run_empty;
    let p = dma1_stream6_uart_tx_config_plan(msg_to_send, msg_len);
    assert(p =~= Seq::<BusOp>::empty().push(p[0]).push(p[1]).push(p[2]).push(p[3]).push(p[4]).push(
        p[5],
    ).push(p[6]).push(p[7]).push(p[8]).push(p[9]).push(p[10]));
    lemma_run_plan_frame(regs, p);
    lemma_cleared(regs(Reg::Dma1Hisr), DMA_STREAM6_CLEAR_FLAGS);
    let x = regs(Reg::Dma1S6Cr);
    let c = modified(
        modified(
            modified(
                modified(
                    modified(modified(x, 1u32 << 0u32, 0), field_mask(25, 3), 4u32 << 25u32),
                    1u32 << 10u32,
                    1u32 << 10u32,
                ),
                field_mask(6, 2),
                1u32 << 6u32,
            ),
            1u32 << 4u32,
            1u32 << 4u32,
        ),
        1u32 << 0u32,
        1u32 << 0u32,
    );
    assert(field(c, 25, 3) == 4 && field(c, 6, 2) == 1 && c & (1u32 << 10u32) != 0 && c & (1u32
        << 4u32) != 0 && c & (1u32 << 0u32) != 0) by (bit_vector)
        requires
            c == modified(
                modified(
                    modified(
                        modified(
                            modified(
                                modified(x, 1u32 << 0u32, 0),
                                field_mask(25, 3),
                                4u32 << 25u32,
                            ),
                            1u32 << 10u32,
                            1u32 << 10u32,
                        ),
                        field_mask(6, 2),
                        1u32 << 6u32,
                    ),
                    1u32 << 4u32,
                    1u32 << 4u32,
                ),
                1u32 << 0u32,
                1u32 << 0u32,
            ),
    ;
}

} // verus!

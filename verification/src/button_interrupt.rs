//! The user button on PC13 as a falling-edge interrupt, and the user LED
//! on PA5.
use vstd::prelude::*;
use vstd::string::StringSliceAdditionalSpecFns;
use crate::bus::{
    BusOp, Irq, Reg, field, run_plan, set_bit, set_field, spec_set_bit, spec_set_field,
    lemma_run_push, lemma_run_empty, touched_mask, lemma_run_plan_frame,
    lemma_set_clear_bit, lemma_set_field,
};
use crate::uart::{print_ops, uart2_print, lemma_tx_all_keeps};

verus! {

/// EXTI line of the button.
pub const BUTTON_LINE: u32 = 13;

/// Port C in the EXTI13 selection field of SYSCFG_EXTICR4 (bits 7:4).
pub const EXTICR4_PC13: u32 = 0b0010 << 4;

/// The plan of [`pc13_exti_init`].
pub open spec fn pc13_exti_init_plan() -> Seq<BusOp> {
    seq![
        BusOp::InterruptsOff,
        set_bit(Reg::RccAhb1enr, 2),
        set_field(Reg::GpiocModer, 26, 2, 0),
        set_bit(Reg::RccApb2enr, 14),
        BusOp::Write { reg: Reg::SyscfgExticr4, value: 0x20 },
        set_bit(Reg::ExtiImr, 13),
        set_bit(Reg::ExtiFtsr, 13),
        BusOp::Unmask { irq: Irq::Exti15_10 },
        BusOp::InterruptsOn,
    ]
}

/// Route PC13 to EXTI13 as a falling-edge interrupt and enable the
/// EXTI15_10 line, with interrupts masked meanwhile.
pub fn pc13_exti_init() -> (ops: Vec<BusOp>)
    ensures
        ops@ == pc13_exti_init_plan(),
{
    proof {
        vstd::arithmetic::power2::lemma2_to64();
    }
    let mut ops = Vec::new();
    ops.push(BusOp::InterruptsOff);
    ops.push(set_bit(Reg::RccAhb1enr, 2));
    ops.push(set_field(Reg::GpiocModer, 26, 2, 0));
    ops.push(set_bit(Reg::RccApb2enr, 14));
    assert(0b0010u32 << 4u32 == 0x20u32) by (bit_vector);
    ops.push(BusOp::Write { reg: Reg::SyscfgExticr4, value: EXTICR4_PC13 });
    ops.push(set_bit(Reg::ExtiImr, BUTTON_LINE));
    ops.push(set_bit(Reg::ExtiFtsr, BUTTON_LINE));
    ops.push(BusOp::Unmask { irq: Irq::Exti15_10 });
    ops.push(BusOp::InterruptsOn);
    ops
}

/// The plan of [`led_init`].
pub open spec fn led_init_plan() -> Seq<BusOp> {
    seq![set_bit(Reg::RccAhb1enr, 0), set_field(Reg::GpioaModer, 10, 2, 1)]
}

/// Whatever the registers held before, after [`pc13_exti_init`] PC13 is an
/// input routed to EXTI13, whose line is unmasked and falling-edge
/// triggered, with the GPIOC and SYSCFG clocks running.
/// No bit outside the masks of the plan's steps changes.
pub proof fn lemma_pc13_exti_init_effect(regs: spec_fn(Reg) -> u32)
    ensures
        ({
            let r = run_plan(regs, pc13_exti_init_plan());
            &&& r(Reg::RccAhb1enr) & (1u32 << 2) != 0
            &&& field(r(Reg::GpiocModer), 26, 2) == 0
            &&& r(Reg::RccApb2enr) & (1u32 << 14) != 0
            &&& r(Reg::SyscfgExticr4) == EXTICR4_PC13
            &&& r(Reg::ExtiImr) & (1u32 << BUTTON_LINE) != 0
            &&& r(Reg::ExtiFtsr) & (1u32 << BUTTON_LINE) != 0
            &&& forall|reg: Reg|
                #![trigger r(reg)]
                r(reg) & !touched_mask(pc13_exti_init_plan(), reg) == regs(reg) & !touched_mask(pc13_exti_init_plan(), reg)
        }),
{
    broadcast use lemma_run_push, lemma_run_empty;
    lemma_run_plan_frame(regs, pc13_exti_init_plan());
    let p = pc13_exti_init_plan();
    assert(p =~= Seq::<BusOp>::empty().push(p[0]).push(p[1]).push(p[2]).push(p[3]).push(p[4]).push(
        p[5],
    ).push(p[6]).push(p[7]).push(p[8]));
    vstd::arithmetic::power2::lemma2_to64();
    assert(0b0010u32 << 4u32 == 0x20u32) by (bit_vector);
    lemma_set_clear_bit(regs(Reg::RccAhb1enr), 2);
    lemma_set_field(regs(Reg::GpiocModer), 26, 2, 0);
    lemma_set_clear_bit(regs(Reg::RccApb2enr), 14);
    lemma_set_clear_bit(regs(Reg::ExtiImr), 13);
    lemma_set_clear_bit(regs(Reg::ExtiFtsr), 13);
}

/// PA5 as an output.
pub fn led_init() -> (ops: Vec<BusOp>)
    ensures
        ops@ == led_init_plan(),
{
    proof {
        vstd::arithmetic::power2::lemma2_to64();
    }
    let mut ops = Vec::new();
    ops.push(set_bit(Reg::RccAhb1enr, 0));
    ops.push(set_field(Reg::GpioaModer, 10, 2, 1));
    ops
}

/// Whatever the registers held before, after [`led_init`] the GPIOA clock
/// runs and PA5 is an output.
/// No bit outside the masks of the plan's steps changes.
pub proof fn lemma_led_init_effect(regs: spec_fn(Reg) -> u32)
    ensures
        ({
            let r = run_plan(regs, led_init_plan());
            &&& r(Reg::RccAhb1enr) & 1 != 0
            &&& field(r(Reg::GpioaModer), 10, 2) == 1
            &&& forall|reg: Reg|
                #![trigger r(reg)]
                r(reg) & !touched_mask(led_init_plan(), reg) == regs(reg) & !touched_mask(led_init_plan(), reg)
        }),
{
    broadcast use lemma_run_push, lemma_run_empty;
    lemma_run_plan_frame(regs, led_init_plan());
    let p = led_init_plan();
    assert(p =~= Seq::<BusOp>::empty().push(p[0]).push(p[1]));
    vstd::arithmetic::power2::lemma2_to64();
    lemma_set_clear_bit(regs(Reg::RccAhb1enr), 0);
    crate::bus::lemma_bit_constants();
    lemma_set_field(regs(Reg::GpioaModer), 10, 2, 1);
}

/// Drive PA5 high through its bit-set half of BSRR.
pub fn led_on() -> (ops: Vec<BusOp>)
    ensures
        ops@ == seq![BusOp::Write { reg: Reg::GpioaBsrr, value: 1u32 << 5 }],
{
    let mut ops = Vec::new();
    ops.push(BusOp::Write { reg: Reg::GpioaBsrr, value: 1u32 << 5 });
    ops
}

/// Drive PA5 low through its bit-reset half of BSRR.
pub fn led_off() -> (ops: Vec<BusOp>)
    ensures
        ops@ == seq![BusOp::Write { reg: Reg::GpioaBsrr, value: 1u32 << 21 }],
{
    let mut ops = Vec::new();
    ops.push(BusOp::Write { reg: Reg::GpioaBsrr, value: 1u32 << 21 });
    ops
}

/// The button's line is pending in the EXTI pending register value `pr`.
pub open spec fn button_pending(pr: u32) -> bool {
    pr & (1u32 << BUTTON_LINE) != 0
}

/// The plan of [`exti15_10`].
pub open spec fn exti15_10_plan(pr: u32, message: &str) -> Seq<BusOp> {
    if button_pending(pr) {
        seq![BusOp::Write { reg: Reg::ExtiPr, value: 1u32 << BUTTON_LINE }] + print_ops(message)
    } else {
        Seq::empty()
    }
}

/// The work of the EXTI15_10 interrupt for a pending register value `pr`:
/// when the button's line is pending, clear it (by writing a one) and
/// print `message`; otherwise do nothing.
pub fn exti15_10(pr: u32, message: &str) -> (ops: Vec<BusOp>)
    ensures
        ops@ == exti15_10_plan(pr, message),
{
    let mut ops = Vec::new();
    if pr & (1u32 << BUTTON_LINE) != 0 {
        ops.push(BusOp::Write { reg: Reg::ExtiPr, value: 1u32 << BUTTON_LINE });
        let mut p = uart2_print(message);
        ops.append(&mut p);
    }
    ops
}

/// When the button's line is pending, the interrupt's work leaves it no
/// longer pending and every other pending line as it was; otherwise it
/// changes nothing.
pub proof fn lemma_exti15_10_acknowledges(regs: spec_fn(Reg) -> u32, pr: u32, message: &str)
    ensures
        button_pending(pr) ==> {
            let r = run_plan(regs, exti15_10_plan(pr, message));
            &&& r(Reg::ExtiPr) & (1u32 << BUTTON_LINE) == 0
            &&& r(Reg::ExtiPr) & !(1u32 << BUTTON_LINE) == regs(Reg::ExtiPr) & !(1u32
                << BUTTON_LINE)
        },
        !button_pending(pr) ==> run_plan(regs, exti15_10_plan(pr, message)) == regs,
{
    broadcast use lemma_run_push, lemma_run_empty;

    if button_pending(pr) {
        let w = seq![BusOp::Write { reg: Reg::ExtiPr, value: 1u32 << BUTTON_LINE }];
        crate::bus::lemma_run_concat(regs, w, print_ops(message));
        lemma_tx_all_keeps(run_plan(regs, w), crate::uart::crlf(message.spec_bytes()), Reg::ExtiPr);
        let x = regs(Reg::ExtiPr);
        assert((x & !(1u32 << 13u32)) & (1u32 << 13u32) == 0 && (x & !(1u32 << 13u32)) & !(1u32
            << 13u32) == x & !(1u32 << 13u32)) by (bit_vector);
    }
}

} // verus!

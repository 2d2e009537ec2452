//! TIM2 as a free-running microsecond counter.
use vstd::prelude::*;
use crate::bus::{
    BusOp, Reg, run_plan, set_bit, spec_set_bit, lemma_run_push, lemma_run_empty, touched_mask, lemma_run_plan_frame,
    lemma_set_clear_bit,
};

verus! {

/// Prescaler that divides the 16 MHz timer clock down to 1 MHz.
pub const TIM2_PRESCALER: u32 = 16 - 1;

/// The plan of [`tim2_us_init`].
pub open spec fn tim2_us_init_plan() -> Seq<BusOp> {
    seq![
        set_bit(Reg::RccApb1enr, 0),
        BusOp::Write { reg: Reg::Tim2Psc, value: 15 },
        BusOp::Write { reg: Reg::Tim2Arr, value: 0xFFFF_FFFF },
        BusOp::Write { reg: Reg::Tim2Cnt, value: 0 },
        BusOp::Write { reg: Reg::Tim2Egr, value: 1 },
        BusOp::Write { reg: Reg::Tim2Cr1, value: 1 },
    ]
}

/// Start TIM2 counting microseconds up to the full 32-bit range.
pub fn tim2_us_init() -> (ops: Vec<BusOp>)
    ensures
        ops@ == tim2_us_init_plan(),
{
    let mut ops = Vec::new();
    ops.push(set_bit(Reg::RccApb1enr, 0));
    ops.push(BusOp::Write { reg: Reg::Tim2Psc, value: TIM2_PRESCALER });
    ops.push(BusOp::Write { reg: Reg::Tim2Arr, value: 0xFFFF_FFFF });
    ops.push(BusOp::Write { reg: Reg::Tim2Cnt, value: 0 });
    ops.push(BusOp::Write { reg: Reg::Tim2Egr, value: 1 });
    ops.push(BusOp::Write { reg: Reg::Tim2Cr1, value: 1 });
    ops
}

/// Whatever the registers held before, after [`tim2_us_init`] the TIM2
/// clock runs and TIM2 counts up from zero at 1 MHz (prescaler 15 on the
/// 16 MHz clock) over the full 32-bit range, with an update event issued
/// so that the prescaler takes effect.
/// No bit outside the masks of the plan's steps changes.
pub proof fn lemma_tim2_us_init_effect(regs: spec_fn(Reg) -> u32)
    ensures
        ({
            let r = run_plan(regs, tim2_us_init_plan());
            &&& r(Reg::RccApb1enr) & 1 != 0
            &&& r(Reg::Tim2Psc) == 15
            &&& r(Reg::Tim2Arr) == 0xFFFF_FFFF
            &&& r(Reg::Tim2Cnt) == 0
            &&& r(Reg::Tim2Egr) == 1
            &&& r(Reg::Tim2Cr1) == 1
            &&& forall|reg: Reg|
                #![trigger r(reg)]
                r(reg) & !touched_mask(tim2_us_init_plan(), reg) == regs(reg) & !touched_mask(tim2_us_init_plan(), reg)
        }),
{
    broadcast use lemma_run_push, lemma_run_empty;
    lemma_run_plan_frame(regs, tim2_us_init_plan());
    let p = tim2_us_init_plan();
    assert(p =~= Seq::<BusOp>::empty().push(p[0]).push(p[1]).push(p[2]).push(p[3]).push(p[4]).push(
        p[5],
    ));
    lemma_set_clear_bit(regs(Reg::RccApb1enr), 0);
    crate::bus::lemma_bit_constants();
}

} // verus!

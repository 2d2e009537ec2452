//! Access to the floating-point unit.
use vstd::prelude::*;
use crate::bus::{
    BusOp, Reg, run_plan, lemma_run_push, lemma_run_empty, touched_mask, lemma_run_plan_frame,
};

verus! {

/// Full access to coprocessors CP10 and CP11: the 4-bit field at bit 20
/// of CPACR set to 0b1111.
pub const CPACR_FULL_ACCESS: u32 = 0xF << 20;

/// The plan of [`fpu_init`].
pub open spec fn fpu_init_plan() -> Seq<BusOp> {
    seq![
        BusOp::Write { reg: Reg::FpuCpacr, value: 0x00F0_0000 },
        BusOp::DataBarrier,
        BusOp::InstructionBarrier,
    ]
}

/// Enable the FPU, then synchronize data and instructions.
pub fn fpu_init() -> (ops: Vec<BusOp>)
    ensures
        ops@ == fpu_init_plan(),
{
    let mut ops = Vec::new();
    assert(0xFu32 << 20u32 == 0x00F0_0000u32) by (bit_vector);
    ops.push(BusOp::Write { reg: Reg::FpuCpacr, value: CPACR_FULL_ACCESS });
    ops.push(BusOp::DataBarrier);
    ops.push(BusOp::InstructionBarrier);
    ops
}

/// The plan of [`fpu_disable`].
pub open spec fn fpu_disable_plan() -> Seq<BusOp> {
    seq![BusOp::Write { reg: Reg::FpuCpacr, value: 0 }]
}

/// Deny access to the FPU.
pub fn fpu_disable() -> (ops: Vec<BusOp>)
    ensures
        ops@ == fpu_disable_plan(),
{
    let mut ops = Vec::new();
    ops.push(BusOp::Write { reg: Reg::FpuCpacr, value: 0 });
    ops
}

/// Whatever the registers held before, after [`fpu_init`] CPACR grants
/// full access to CP10 and CP11 (bits 23:20 set, all others clear); after
/// [`fpu_disable`] it grants none.
/// No bit outside the masks of the plan's steps changes.
pub proof fn lemma_fpu_effect(regs: spec_fn(Reg) -> u32)
    ensures
        run_plan(regs, fpu_init_plan())(Reg::FpuCpacr) == 0x00F0_0000,
        run_plan(regs, fpu_disable_plan())(Reg::FpuCpacr) == 0,
        forall|reg: Reg|
            #![trigger run_plan(regs, fpu_init_plan())(reg)]
            run_plan(regs, fpu_init_plan())(reg) & !touched_mask(fpu_init_plan(), reg) == regs(
                reg,
            ) & !touched_mask(fpu_init_plan(), reg),
        forall|reg: Reg|
            #![trigger run_plan(regs, fpu_disable_plan())(reg)]
            run_plan(regs, fpu_disable_plan())(reg) & !touched_mask(fpu_disable_plan(), reg)
                == regs(reg) & !touched_mask(fpu_disable_plan(), reg),
{
    lemma_run_plan_frame(regs, fpu_init_plan());
    lemma_run_plan_frame(regs, fpu_disable_plan());
    broadcast use lemma_run_push, lemma_run_empty;
    let p = fpu_init_plan();
    assert(p =~= Seq::<BusOp>::empty().push(p[0]).push(p[1]).push(p[2]));
    let q = fpu_disable_plan();
    assert(q =~= Seq::<BusOp>::empty().push(q[0]));
}

} // verus!

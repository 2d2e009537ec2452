//! Register-level operations on the STM32F411 peripherals.
//!
//! Every peripheral routine of the crate is a *plan*: a sequence of
//! [`BusOp`]s computed here and carried out against the memory-mapped
//! registers by the board runtime. The semantics of the operations that
//! change a register are stated by [`modified`]; the bit-field builders are
//! proved to change exactly the field they name.
use vstd::prelude::*;
use vstd::arithmetic::power2::pow2;

verus! {

/// The memory-mapped registers that the plans touch.
#[derive(Clone, Copy, Debug, PartialEq, Eq, Hash, Structural)]
pub enum Reg {
    RccAhb1enr,
    RccApb1enr,
    RccApb2enr,
    GpioaModer,
    GpioaPupdr,
    GpioaAfrl,
    GpioaAfrh,
    GpioaBsrr,
    GpioaIdr,
    GpiobModer,
    GpiobOtyper,
    GpiobPupdr,
    GpiobAfrh,
    GpiocModer,
    I2c1Cr1,
    I2c1Cr2,
    I2c1Ccr,
    I2c1Trise,
    I2c1Sr1,
    I2c1Sr2,
    I2c1Dr,
    Usart1Sr,
    Usart1Dr,
    Usart1Brr,
    Usart1Cr1,
    Usart2Sr,
    Usart2Dr,
    Usart2Brr,
    Usart2Cr1,
    Usart2Cr3,
    Tim2Psc,
    Tim2Arr,
    Tim2Cnt,
    Tim2Egr,
    Tim2Cr1,
    SyscfgExticr4,
    ExtiImr,
    ExtiFtsr,
    ExtiPr,
    FpuCpacr,
    Dma1Hifcr,
    Dma1Hisr,
    Dma1S6Cr,
    Dma1S6Par,
    Dma1S6M0ar,
    Dma1S6Ndtr,
}

/// Interrupt lines that plans unmask in the NVIC.
#[derive(Clone, Copy, Debug, PartialEq, Eq, Structural)]
pub enum Irq {
    Exti15_10,
    Usart2,
    Dma1Stream6,
}

/// One step of a peripheral plan.
#[derive(Clone, Copy, Debug, PartialEq, Eq, Structural)]
pub enum BusOp {
    /// Read-modify-write: the bits of `reg` under `mask` take the bits of
    /// `value`, the others keep their value (see [`modified`]).
    Modify { reg: Reg, mask: u32, value: u32 },
    /// Write the whole register with `value`. Every register that a plan
    /// writes this way either resets to zero or (TIM2's ARR) is written with
    /// all of its bits, so this is the same as setting the written fields on
    /// top of the reset value.
    Write { reg: Reg, value: u32 },
    /// Write the bus address of the register `target` (see
    /// [`reg_address`]) into `reg`.
    WriteAddressOf { reg: Reg, target: Reg },
    /// Read the register and discard the value (clears status flags).
    Read { reg: Reg },
    /// Read the register and keep its low byte as the next received byte.
    Receive { reg: Reg },
    /// Poll until some bit of `mask` is set in `reg`.
    WaitSet { reg: Reg, mask: u32 },
    /// Poll until every bit of `mask` is clear in `reg`.
    WaitClear { reg: Reg, mask: u32 },
    /// Read the register and hold its value for a later `SendSampleHex`.
    Sample { reg: Reg },
    /// Send the held value over USART2 as lower-case hexadecimal, padded
    /// with zeros to at least `digits` digits (see `fmt::hex_digits`).
    SendSampleHex { digits: u32 },
    /// Mask all interrupts (`cpsid i`).
    InterruptsOff,
    /// Unmask all interrupts (`cpsie i`).
    InterruptsOn,
    /// Enable an interrupt line in the NVIC.
    Unmask { irq: Irq },
    /// Data synchronization barrier.
    DataBarrier,
    /// Instruction synchronization barrier.
    InstructionBarrier,
    /// One idle cycle.
    Nop,
}

/// The value of a register after a [`BusOp::Modify`] with `mask` and `value`
/// is applied to it when it held `old`.
pub open spec fn modified(old: u32, mask: u32, value: u32) -> u32 {
    (old & !mask) | (value & mask)
}

/// Computes the value that a [`BusOp::Modify`] writes back.
pub fn apply_modify(old: u32, mask: u32, value: u32) -> (r: u32)
    ensures
        r == modified(old, mask, value),
{
    (old & !mask) | (value & mask)
}

/// The byte kept by a [`BusOp::Receive`] of a register holding `word`: its
/// low eight bits.
pub fn received_byte(word: u32) -> (b: u8)
    ensures
        b == word % 256,
{
    assert(word as u8 == word % 256) by (bit_vector);
    word as u8
}

/// A mask of `width` ones starting at bit `offset`.
pub open spec fn field_mask(offset: u32, width: u32) -> u32 {
    (((1u32 << width) - 1u32) as u32) << offset
}

/// The `width`-bit field of `v` that starts at bit `offset`.
pub open spec fn field(v: u32, offset: u32, width: u32) -> u32 {
    (v >> offset) & (((1u32 << width) - 1u32) as u32)
}

/// Fields that fit in a register: `value` fits in `width` bits and the
/// field ends at or below bit 32.
pub open spec fn field_fits(offset: u32, width: u32, value: u32) -> bool {
    &&& 0 < width < 32
    &&& offset + width <= 32
    &&& value < pow2(width as nat)
}

/// `2^width` as the shift that the field arithmetic uses.
proof fn lemma_shift_is_pow2(width: u32)
    requires
        width < 32,
    ensures
        (1u32 << width) == pow2(width as nat),
        pow2(width as nat) > 0,
{
    vstd::arithmetic::power2::lemma_pow2_pos(width as nat);
    vstd::bits::lemma_u32_pow2_no_overflow(width as nat);
    vstd::bits::lemma_u32_shl_is_mul(1, width);
}

pub open spec fn spec_set_field(reg: Reg, offset: u32, width: u32, value: u32) -> BusOp {
    BusOp::Modify { reg, mask: field_mask(offset, width), value: value << offset }
}

/// Set the `width`-bit field at `offset` of `reg` to `value`.
#[verifier::when_used_as_spec(spec_set_field)]
pub fn set_field(reg: Reg, offset: u32, width: u32, value: u32) -> (op: BusOp)
    requires
        field_fits(offset, width, value),
    ensures
        op == spec_set_field(reg, offset, width, value),
{
    proof {
        lemma_shift_is_pow2(width);
    }
    BusOp::Modify { reg, mask: ((1u32 << width) - 1) << offset, value: value << offset }
}

pub open spec fn spec_set_bit(reg: Reg, n: u32) -> BusOp {
    BusOp::Modify { reg, mask: 1u32 << n, value: 1u32 << n }
}

/// Set bit `n` of `reg`.
#[verifier::when_used_as_spec(spec_set_bit)]
pub fn set_bit(reg: Reg, n: u32) -> (op: BusOp)
    requires
        n < 32,
    ensures
        op == spec_set_bit(reg, n),
{
    BusOp::Modify { reg, mask: 1u32 << n, value: 1u32 << n }
}

pub open spec fn spec_clear_bit(reg: Reg, n: u32) -> BusOp {
    BusOp::Modify { reg, mask: 1u32 << n, value: 0 }
}

/// Clear bit `n` of `reg`.
#[verifier::when_used_as_spec(spec_clear_bit)]
pub fn clear_bit(reg: Reg, n: u32) -> (op: BusOp)
    requires
        n < 32,
    ensures
        op == spec_clear_bit(reg, n),
{
    BusOp::Modify { reg, mask: 1u32 << n, value: 0 }
}

pub open spec fn spec_wait_set(reg: Reg, n: u32) -> BusOp {
    BusOp::WaitSet { reg, mask: 1u32 << n }
}

/// Poll until bit `n` of `reg` is set.
#[verifier::when_used_as_spec(spec_wait_set)]
pub fn wait_set(reg: Reg, n: u32) -> (op: BusOp)
    requires
        n < 32,
    ensures
        op == spec_wait_set(reg, n),
{
    BusOp::WaitSet { reg, mask: 1u32 << n }
}

pub open spec fn spec_wait_clear(reg: Reg, n: u32) -> BusOp {
    BusOp::WaitClear { reg, mask: 1u32 << n }
}

/// Poll until bit `n` of `reg` is clear.
#[verifier::when_used_as_spec(spec_wait_clear)]
pub fn wait_clear(reg: Reg, n: u32) -> (op: BusOp)
    requires
        n < 32,
    ensures
        op == spec_wait_clear(reg, n),
{
    BusOp::WaitClear { reg, mask: 1u32 << n }
}

/// Setting a field gives it the requested value and leaves every bit
/// outside the field as it was.
pub proof fn lemma_set_field(old: u32, offset: u32, width: u32, value: u32)
    requires
        field_fits(offset, width, value),
    ensures
        field(modified(old, field_mask(offset, width), value << offset), offset, width)
            == value,
        modified(old, field_mask(offset, width), value << offset) & !field_mask(offset, width)
            == old & !field_mask(offset, width),
{
    lemma_shift_is_pow2(width);
    assert(field(modified(old, field_mask(offset, width), value << offset), offset, width)
        == value) by (bit_vector)
        requires
            0 < width < 32,
            offset + width <= 32,
            value < (1u32 << width),
    ;
    assert(modified(old, field_mask(offset, width), value << offset) & !field_mask(offset, width)
        == old & !field_mask(offset, width)) by (bit_vector);
}

/// Setting a bit sets it and leaves the others; clearing a bit clears it
/// and leaves the others.
pub proof fn lemma_set_clear_bit(old: u32, n: u32)
    requires
        n < 32,
    ensures
        modified(old, 1u32 << n, 1u32 << n) & (1u32 << n) != 0,
        modified(old, 1u32 << n, 1u32 << n) & !(1u32 << n) == old & !(1u32 << n),
        modified(old, 1u32 << n, 0) & (1u32 << n) == 0,
        modified(old, 1u32 << n, 0) & !(1u32 << n) == old & !(1u32 << n),
{
    assert(modified(old, 1u32 << n, 1u32 << n) & (1u32 << n) != 0) by (bit_vector)
        requires
            n < 32,
    ;
    assert(modified(old, 1u32 << n, 1u32 << n) & !(1u32 << n) == old & !(1u32 << n))
        by (bit_vector);
    assert(modified(old, 1u32 << n, 0) & (1u32 << n) == 0) by (bit_vector);
    assert(modified(old, 1u32 << n, 0) & !(1u32 << n) == old & !(1u32 << n)) by (bit_vector);
}

/// The values that a plan writes to `reg` with [`BusOp::Write`], in order.
pub open spec fn writes_to(ops: Seq<BusOp>, reg: Reg) -> Seq<u32>
    decreases ops.len(),
{
    if ops.len() == 0 {
        Seq::empty()
    } else {
        let rest = writes_to(ops.drop_last(), reg);
        match ops.last() {
            BusOp::Write { reg: r, value } => if r == reg {
                rest.push(value)
            } else {
                rest
            },
            _ => rest,
        }
    }
}

/// The number of bytes that a plan receives from `reg`.
pub open spec fn receives_from(ops: Seq<BusOp>, reg: Reg) -> nat
    decreases ops.len(),
{
    if ops.len() == 0 {
        0
    } else {
        receives_from(ops.drop_last(), reg) + match ops.last() {
            BusOp::Receive { reg: r } => if r == reg {
                1nat
            } else {
                0nat
            },
            _ => 0nat,
        }
    }
}

/// Running one plan after another writes what each of them writes.
pub proof fn lemma_writes_to_concat(a: Seq<BusOp>, b: Seq<BusOp>, reg: Reg)
    ensures
        writes_to(a + b, reg) == writes_to(a, reg) + writes_to(b, reg),
    decreases b.len(),
{
    if b.len() == 0 {
        assert(a + b =~= a);
    } else {
        lemma_writes_to_concat(a, b.drop_last(), reg);
        assert((a + b).drop_last() =~= a + b.drop_last());
    }
}

/// Running one plan after another receives what each of them receives.
pub proof fn lemma_receives_from_concat(a: Seq<BusOp>, b: Seq<BusOp>, reg: Reg)
    ensures
        receives_from(a + b, reg) == receives_from(a, reg) + receives_from(b, reg),
    decreases b.len(),
{
    if b.len() == 0 {
        assert(a + b =~= a);
    } else {
        lemma_receives_from_concat(a, b.drop_last(), reg);
        assert((a + b).drop_last() =~= a + b.drop_last());
    }
}

/// Applying the same modification twice is the same as applying it once.
pub proof fn lemma_modify_idempotent(old: u32, mask: u32, value: u32)
    ensures
        modified(modified(old, mask, value), mask, value) == modified(old, mask, value),
{
    assert(modified(modified(old, mask, value), mask, value) == modified(old, mask, value))
        by (bit_vector);
}

/// The bus address of a register on the STM32F411: its peripheral's base
/// address plus the register's offset in the peripheral.
pub open spec fn reg_address(r: Reg) -> u32 {
    match r {
        Reg::RccAhb1enr => 0x4002_3830,
        Reg::RccApb1enr => 0x4002_3840,
        Reg::RccApb2enr => 0x4002_3844,
        Reg::GpioaModer => 0x4002_0000,
        Reg::GpioaPupdr => 0x4002_000C,
        Reg::GpioaAfrl => 0x4002_0020,
        Reg::GpioaAfrh => 0x4002_0024,
        Reg::GpioaBsrr => 0x4002_0018,
        Reg::GpioaIdr => 0x4002_0010,
        Reg::GpiobModer => 0x4002_0400,
        Reg::GpiobOtyper => 0x4002_0404,
        Reg::GpiobPupdr => 0x4002_040C,
        Reg::GpiobAfrh => 0x4002_0424,
        Reg::GpiocModer => 0x4002_0800,
        Reg::I2c1Cr1 => 0x4000_5400,
        Reg::I2c1Cr2 => 0x4000_5404,
        Reg::I2c1Ccr => 0x4000_541C,
        Reg::I2c1Trise => 0x4000_5420,
        Reg::I2c1Sr1 => 0x4000_5414,
        Reg::I2c1Sr2 => 0x4000_5418,
        Reg::I2c1Dr => 0x4000_5410,
        Reg::Usart1Sr => 0x4001_1000,
        Reg::Usart1Dr => 0x4001_1004,
        Reg::Usart1Brr => 0x4001_1008,
        Reg::Usart1Cr1 => 0x4001_100C,
        Reg::Usart2Sr => 0x4000_4400,
        Reg::Usart2Dr => 0x4000_4404,
        Reg::Usart2Brr => 0x4000_4408,
        Reg::Usart2Cr1 => 0x4000_440C,
        Reg::Usart2Cr3 => 0x4000_4414,
        Reg::Tim2Psc => 0x4000_0028,
        Reg::Tim2Arr => 0x4000_002C,
        Reg::Tim2Cnt => 0x4000_0024,
        Reg::Tim2Egr => 0x4000_0014,
        Reg::Tim2Cr1 => 0x4000_0000,
        Reg::SyscfgExticr4 => 0x4001_3814,
        Reg::ExtiImr => 0x4001_3C00,
        Reg::ExtiFtsr => 0x4001_3C0C,
        Reg::ExtiPr => 0x4001_3C14,
        Reg::FpuCpacr => 0xE000_ED88,
        Reg::Dma1Hifcr => 0x4002_600C,
        Reg::Dma1Hisr => 0x4002_6004,
        Reg::Dma1S6Cr => 0x4002_60A0,
        Reg::Dma1S6Par => 0x4002_60A8,
        Reg::Dma1S6M0ar => 0x4002_60AC,
        Reg::Dma1S6Ndtr => 0x4002_60A4,
    }
}

/// The register contents after `op`, for contents `regs` before it.
///
/// A `Modify` changes the bits under its mask. A `WriteAddressOf` stores
/// the target's bus address. A `Write` stores its value,
/// except in the two write-one-to-clear registers: a write to EXTI's
/// pending register clears the pending bits where the value has ones, and
/// a write to DMA1's HIFCR clears the HISR flags where the value has ones.
/// Other steps change nothing in the model; the hardware also changes
/// status and data registers on its own, and no law claims about those
/// beyond what the plan itself writes.
pub open spec fn apply_op(regs: spec_fn(Reg) -> u32, op: BusOp) -> spec_fn(Reg) -> u32 {
    match op {
        BusOp::Modify { reg, mask, value } => |r: Reg|
            if r == reg {
                modified(regs(reg), mask, value)
            } else {
                regs(r)
            },
        BusOp::Write { reg, value } => |r: Reg|
            if reg == Reg::ExtiPr && r == Reg::ExtiPr {
                regs(r) & !value
            } else if reg == Reg::Dma1Hifcr && r == Reg::Dma1Hisr {
                regs(r) & !value
            } else if r == reg {
                value
            } else {
                regs(r)
            },
        BusOp::WriteAddressOf { reg, target } => |r: Reg|
            if r == reg {
                reg_address(target)
            } else {
                regs(r)
            },
        _ => regs,
    }
}

/// The bits of `reg` that `op` may change in the model.
pub open spec fn op_mask(op: BusOp, reg: Reg) -> u32 {
    match op {
        BusOp::Modify { reg: r, mask, .. } => if r == reg {
            mask
        } else {
            0
        },
        BusOp::Write { reg: r, value } => if r == Reg::ExtiPr && reg == Reg::ExtiPr {
            value
        } else if r == Reg::Dma1Hifcr && reg == Reg::Dma1Hisr {
            value
        } else if r == reg {
            0xFFFF_FFFF
        } else {
            0
        },
        BusOp::WriteAddressOf { reg: r, .. } => if r == reg {
            0xFFFF_FFFF
        } else {
            0
        },
        _ => 0,
    }
}

/// The bits of `reg` that a plan may change: those of its steps together.
pub open spec fn touched_mask(ops: Seq<BusOp>, reg: Reg) -> u32
    decreases ops.len(),
{
    if ops.len() == 0 {
        0
    } else {
        touched_mask(ops.drop_last(), reg) | op_mask(ops.last(), reg)
    }
}

proof fn lemma_frame_step(x: u32, y: u32, prev: u32, m: u32, v: u32)
    requires
        x & !prev == y & !prev,
    ensures
        modified(x, m, v) & !(prev | m) == y & !(prev | m),
        (x & !v) & !(prev | v) == y & !(prev | v),
        v & !(prev | 0xFFFF_FFFF) == y & !(prev | 0xFFFF_FFFF),
        x & !(prev | 0) == y & !(prev | 0),
{
    assert(modified(x, m, v) & !(prev | m) == y & !(prev | m)) by (bit_vector)
        requires
            x & !prev == y & !prev,
    ;
    assert((x & !v) & !(prev | v) == y & !(prev | v)) by (bit_vector)
        requires
            x & !prev == y & !prev,
    ;
    assert(v & !(prev | 0xFFFF_FFFF) == y & !(prev | 0xFFFF_FFFF)) by (bit_vector);
    assert(x & !(prev | 0) == y & !(prev | 0)) by (bit_vector)
        requires
            x & !prev == y & !prev,
    ;
}

/// A plan changes no bit outside the masks of its steps: for every
/// register, the bits outside `touched_mask` keep the value they had.
pub proof fn lemma_run_plan_frame(regs: spec_fn(Reg) -> u32, ops: Seq<BusOp>)
    ensures
        forall|reg: Reg|
            #![trigger run_plan(regs, ops)(reg)]
            run_plan(regs, ops)(reg) & !touched_mask(ops, reg) == regs(reg) & !touched_mask(
                ops,
                reg,
            ),
    decreases ops.len(),
{
    if ops.len() > 0 {
        let p = ops.drop_last();
        lemma_run_plan_frame(regs, p);
        assert forall|reg: Reg|
            #![trigger run_plan(regs, ops)(reg)]
            run_plan(regs, ops)(reg) & !touched_mask(ops, reg) == regs(reg) & !touched_mask(
                ops,
                reg,
            ) by {
            let x = run_plan(regs, p)(reg);
            lemma_frame_step(x, regs(reg), touched_mask(p, reg), 0, 0);
            match ops.last() {
                BusOp::Modify { reg: r, mask, value } => {
                    lemma_frame_step(x, regs(reg), touched_mask(p, reg), mask, value);
                },
                BusOp::Write { reg: r, value } => {
                    lemma_frame_step(x, regs(reg), touched_mask(p, reg), value, value);
                },
                BusOp::WriteAddressOf { reg: r, target } => {
                    lemma_frame_step(x, regs(reg), touched_mask(p, reg), 0, reg_address(target));
                },
                _ => {},
            }
        }
    }
}

/// The single-bit masks that the plans use, as numbers.
pub proof fn lemma_bit_constants()
    by (bit_vector)
    ensures
        1u32 << 0u32 == 1,
        1u32 << 1u32 == 2,
        1u32 << 2u32 == 4,
        1u32 << 3u32 == 8,
        1u32 << 5u32 == 0x20,
        1u32 << 6u32 == 0x40,
        1u32 << 9u32 == 0x200,
        1u32 << 10u32 == 0x400,
{
}

/// Clearing with a value leaves none of its bits set.
pub proof fn lemma_cleared(x: u32, v: u32)
    ensures
        (x & !v) & v == 0,
{
    assert((x & !v) & v == 0) by (bit_vector);
}

/// The register contents after a whole plan.
pub open spec fn run_plan(regs: spec_fn(Reg) -> u32, ops: Seq<BusOp>) -> spec_fn(Reg) -> u32
    decreases ops.len(),
{
    if ops.len() == 0 {
        regs
    } else {
        apply_op(run_plan(regs, ops.drop_last()), ops.last())
    }
}

/// Running a plan extended by one operation runs the plan, then the
/// operation.
pub broadcast proof fn lemma_run_push(regs: spec_fn(Reg) -> u32, ops: Seq<BusOp>, op: BusOp)
    ensures
        #[trigger] run_plan(regs, ops.push(op)) == apply_op(run_plan(regs, ops), op),
{
    assert(ops.push(op).drop_last() =~= ops);
}

/// Running one plan after another is running the first, then the second
/// on the contents it left.
pub proof fn lemma_run_concat(regs: spec_fn(Reg) -> u32, a: Seq<BusOp>, b: Seq<BusOp>)
    ensures
        run_plan(regs, a + b) == run_plan(run_plan(regs, a), b),
    decreases b.len(),
{
    if b.len() == 0 {
        assert(a + b =~= a);
    } else {
        lemma_run_concat(regs, a, b.drop_last());
        assert((a + b).drop_last() =~= a + b.drop_last());
    }
}

/// Running the empty plan changes nothing.
pub broadcast proof fn lemma_run_empty(regs: spec_fn(Reg) -> u32)
    ensures
        #[trigger] run_plan(regs, Seq::<BusOp>::empty()) == regs,
{
}

/// Setting two fields, the second above the first, leaves both set.
pub proof fn lemma_two_fields(
    old: u32,
    o1: u32,
    w1: u32,
    v1: u32,
    o2: u32,
    w2: u32,
    v2: u32,
)
    requires
        field_fits(o1, w1, v1),
        field_fits(o2, w2, v2),
        o1 + w1 <= o2,
    ensures
        ({
            let r = modified(
                modified(old, field_mask(o1, w1), v1 << o1),
                field_mask(o2, w2),
                v2 << o2,
            );
            field(r, o1, w1) == v1 && field(r, o2, w2) == v2
        }),
{
    lemma_shift_is_pow2(w1);
    lemma_shift_is_pow2(w2);
    lemma_set_field(old, o1, w1, v1);
    lemma_set_field(modified(old, field_mask(o1, w1), v1 << o1), o2, w2, v2);
    let m = modified(old, field_mask(o1, w1), v1 << o1);
    let r = modified(m, field_mask(o2, w2), v2 << o2);
    assert(field(r, o1, w1) == field(m, o1, w1)) by (bit_vector)
        requires
            r & !field_mask(o2, w2) == m & !field_mask(o2, w2),
            0 < w1 < 32,
            0 < w2 < 32,
            o1 + w1 <= o2,
            o2 + w2 <= 32,
    ;
}

/// Setting two different bits leaves both set.
pub proof fn lemma_two_bits(old: u32, a: u32, b: u32)
    requires
        a < 32,
        b < 32,
    ensures
        ({
            let r = modified(modified(old, 1u32 << a, 1u32 << a), 1u32 << b, 1u32 << b);
            r & (1u32 << a) != 0 && r & (1u32 << b) != 0
        }),
{
    let r = modified(modified(old, 1u32 << a, 1u32 << a), 1u32 << b, 1u32 << b);
    assert(r & (1u32 << a) != 0 && r & (1u32 << b) != 0) by (bit_vector)
        requires
            a < 32,
            b < 32,
            r == modified(modified(old, 1u32 << a, 1u32 << a), 1u32 << b, 1u32 << b),
    ;
}

/// A modification under a full mask writes the value.
pub proof fn lemma_modify_all(old: u32, value: u32)
    ensures
        modified(old, 0xFFFF_FFFF, value) == value,
{
    assert(modified(old, 0xFFFF_FFFF, value) == value) by (bit_vector);
}

/// Pulsing bit `a` (set, then clear) and then setting bit `b` leaves `a`
/// clear and `b` set.
pub proof fn lemma_pulse_then_set(old: u32, a: u32, b: u32)
    requires
        a < 32,
        b < 32,
        a != b,
    ensures
        ({
            let r = modified(
                modified(modified(old, 1u32 << a, 1u32 << a), 1u32 << a, 0),
                1u32 << b,
                1u32 << b,
            );
            r & (1u32 << a) == 0 && r & (1u32 << b) != 0
        }),
{
    let r = modified(
        modified(modified(old, 1u32 << a, 1u32 << a), 1u32 << a, 0),
        1u32 << b,
        1u32 << b,
    );
    assert(r & (1u32 << a) == 0 && r & (1u32 << b) != 0) by (bit_vector)
        requires
            a < 32,
            b < 32,
            a != b,
            r == modified(
                modified(modified(old, 1u32 << a, 1u32 << a), 1u32 << a, 0),
                1u32 << b,
                1u32 << b,
            ),
    ;
}

/// Setting a field and then a bit above it leaves both set.
pub proof fn lemma_field_then_bit(old: u32, o: u32, w: u32, v: u32, n: u32)
    requires
        field_fits(o, w, v),
        o + w <= n,
        n < 32,
    ensures
        ({
            let r = modified(modified(old, field_mask(o, w), v << o), 1u32 << n, 1u32 << n);
            field(r, o, w) == v && r & (1u32 << n) != 0
        }),
{
    lemma_set_field(old, o, w, v);
    let m = modified(old, field_mask(o, w), v << o);
    let r = modified(m, 1u32 << n, 1u32 << n);
    assert(field(r, o, w) == field(m, o, w) && r & (1u32 << n) != 0) by (bit_vector)
        requires
            r == modified(m, 1u32 << n, 1u32 << n),
            0 < w < 32,
            o + w <= n,
            n < 32,
    ;
}

/// Steps that serve only the USART2 console: waiting for and writing its
/// transmit register, and the sampled-register report (whose `Sample` step
/// reads the sampled register once).
pub open spec fn is_console_step(op: BusOp) -> bool {
    match op {
        BusOp::WaitSet { reg: Reg::Usart2Sr, .. } => true,
        BusOp::Write { reg: Reg::Usart2Dr, .. } => true,
        BusOp::Sample { .. } => true,
        BusOp::SendSampleHex { .. } => true,
        _ => false,
    }
}

/// A plan with its console steps left out.
pub open spec fn without_console(ops: Seq<BusOp>) -> Seq<BusOp>
    decreases ops.len(),
{
    if ops.len() == 0 {
        Seq::empty()
    } else if is_console_step(ops.last()) {
        without_console(ops.drop_last())
    } else {
        without_console(ops.drop_last()).push(ops.last())
    }
}

/// Leaving out console steps distributes over running plans one after
/// another.
pub broadcast proof fn lemma_without_console_concat(a: Seq<BusOp>, b: Seq<BusOp>)
    ensures
        #[trigger] without_console(a + b) == without_console(a) + without_console(b),
    decreases b.len(),
{
    if b.len() == 0 {
        assert(a + b =~= a);
        assert(without_console(a) + without_console(b) =~= without_console(a));
    } else {
        lemma_without_console_concat(a, b.drop_last());
        assert((a + b).drop_last() =~= a + b.drop_last());
        if !is_console_step(b.last()) {
            assert(without_console(a) + without_console(b.drop_last()).push(b.last()) =~= (
            without_console(a) + without_console(b.drop_last())).push(b.last()));
        }
    }
}

/// Leaving out console steps from a single step.
pub broadcast proof fn lemma_without_console_single(op: BusOp)
    ensures
        #[trigger] without_console(seq![op]) == if is_console_step(op) {
            Seq::<BusOp>::empty()
        } else {
            seq![op]
        },
{
    assert(seq![op].drop_last() =~= Seq::<BusOp>::empty());
    reveal_with_fuel(without_console, 2);
}

/// Leaving out console steps from two steps.
pub proof fn lemma_without_console_pair(a: BusOp, b: BusOp)
    ensures
        without_console(seq![a, b]) == without_console(seq![a]) + without_console(
            seq![b],
        ),
{
    assert(seq![a, b] =~= seq![a] + seq![b]);
    lemma_without_console_concat(seq![a], seq![b]);
}

/// Leaving out console steps keeps every write to and every receive from
/// a register other than USART2's data register.
pub proof fn lemma_without_console_keeps(ops: Seq<BusOp>, reg: Reg)
    requires
        reg != Reg::Usart2Dr,
    ensures
        writes_to(without_console(ops), reg) == writes_to(ops, reg),
        receives_from(without_console(ops), reg) == receives_from(ops, reg),
    decreases ops.len(),
{
    if ops.len() > 0 {
        lemma_without_console_keeps(ops.drop_last(), reg);
        let w = without_console(ops.drop_last());
        if !is_console_step(ops.last()) {
            assert(w.push(ops.last()).drop_last() =~= w);
        }
    }
}

/// A plan that receives nothing from `reg` has no receive step on it.
pub proof fn lemma_no_receive(q: Seq<BusOp>, reg: Reg)
    requires
        receives_from(q, reg) == 0,
    ensures
        forall|j: int| 0 <= j < q.len() ==> q[j] != (BusOp::Receive { reg }),
    decreases q.len(),
{
    if q.len() > 0 {
        lemma_no_receive(q.drop_last(), reg);
        assert forall|j: int| 0 <= j < q.len() implies q[j] != (BusOp::Receive { reg }) by {
            if j < q.len() - 1 {
                assert(q[j] == q.drop_last()[j]);
            }
        }
    }
}

/// Only waiting and receiving.
pub open spec fn is_passive(op: BusOp) -> bool {
    op is WaitSet || op is Receive
}

/// Steps that only wait and receive leave the register model as it was.
pub proof fn lemma_passive_run(regs: spec_fn(Reg) -> u32, q: Seq<BusOp>)
    requires
        forall|j: int| 0 <= j < q.len() ==> is_passive(#[trigger] q[j]),
    ensures
        run_plan(regs, q) == regs,
    decreases q.len(),
{
    if q.len() > 0 {
        let d = q.drop_last();
        assert forall|j: int| 0 <= j < d.len() implies is_passive(#[trigger] d[j]) by {
            assert(d[j] == q[j]);
        }
        lemma_passive_run(regs, d);
        let l = q[q.len() - 1];
        assert(is_passive(l));
        assert(apply_op(regs, l) == regs);
    }
}

/// The acknowledge bit (bit 10) of I2C CR1 after setting it; and after
/// clearing it and then requesting a stop (bit 9).
pub proof fn lemma_ack_stop_bits(x: u32)
    ensures
        modified(x, 1u32 << 10u32, 1u32 << 10u32) & 0x400 != 0,
        modified(modified(x, 1u32 << 10u32, 0), 1u32 << 9u32, 1u32 << 9u32) & 0x400 == 0,
        modified(modified(x, 1u32 << 10u32, 0), 1u32 << 9u32, 1u32 << 9u32) & 0x200 != 0,
{
    assert(modified(x, 1u32 << 10u32, 1u32 << 10u32) & 0x400 != 0) by (bit_vector);
    assert(modified(modified(x, 1u32 << 10u32, 0), 1u32 << 9u32, 1u32 << 9u32) & 0x400 == 0
        && modified(modified(x, 1u32 << 10u32, 0), 1u32 << 9u32, 1u32 << 9u32) & 0x200 != 0)
        by (bit_vector);
}

} // verus!

//! The motor's quadrature encoder on PA6/PA7: pin set-up, level reading
//! and transition counting.
use vstd::prelude::*;
use crate::bus::{
    BusOp, Reg, field, run_plan, set_bit, set_field, spec_set_bit, spec_set_field,
    lemma_run_push, lemma_run_empty, touched_mask, lemma_run_plan_frame,
    lemma_set_clear_bit, lemma_set_field, lemma_two_fields,
};

verus! {

/// Number of idle cycles left for the GPIOA clock to settle.
pub const CLOCK_SETTLE_NOPS: usize = 10;

/// `n` idle cycles.
pub open spec fn nops(n: nat) -> Seq<BusOp> {
    Seq::new(n, |i: int| BusOp::Nop)
}

/// The plan of [`motor_setup`].
pub open spec fn motor_setup_plan() -> Seq<BusOp> {
    seq![set_bit(Reg::RccAhb1enr, 0)] + nops(10) + seq![
        set_field(Reg::GpioaModer, 12, 2, 0),
        set_field(Reg::GpioaModer, 14, 2, 0),
        set_field(Reg::GpioaPupdr, 12, 4, 0b1010),
    ]
}

/// PA6 and PA7 as pulled-down inputs for the two encoder channels.
pub fn motor_setup() -> (ops: Vec<BusOp>)
    ensures
        ops@ == motor_setup_plan(),
{
    proof {
        vstd::arithmetic::power2::lemma2_to64();
    }
    let mut ops = Vec::new();
    ops.push(set_bit(Reg::RccAhb1enr, 0));
    let mut i: usize = 0;
    while i < CLOCK_SETTLE_NOPS
        invariant
            i <= 10,
            ops@ == seq![set_bit(Reg::RccAhb1enr, 0)] + nops(i as nat),
        decreases 10 - i,
    {
        ops.push(BusOp::Nop);
        i = i + 1;
        assert(ops@ =~= seq![set_bit(Reg::RccAhb1enr, 0)] + nops(i as nat));
    }
    ops.push(set_field(Reg::GpioaModer, 12, 2, 0));
    ops.push(set_field(Reg::GpioaModer, 14, 2, 0));
    ops.push(set_field(Reg::GpioaPupdr, 12, 4, 0b1010));
    assert(ops@ =~= seq![set_bit(Reg::RccAhb1enr, 0)] + nops(10) + seq![
        set_field(Reg::GpioaModer, 12, 2, 0),
        set_field(Reg::GpioaModer, 14, 2, 0),
        set_field(Reg::GpioaPupdr, 12, 4, 0b1010),
    ]);
    ops
}

/// Whatever the registers held before, after [`motor_setup`] the GPIOA
/// clock runs and PA6 and PA7 are inputs with pull-downs (both 2-bit pull
/// fields `10`).
/// No bit outside the masks of the plan's steps changes.
pub proof fn lemma_motor_setup_effect(regs: spec_fn(Reg) -> u32)
    ensures
        ({
            let r = run_plan(regs, motor_setup_plan());
            &&& r(Reg::RccAhb1enr) & 1 != 0
            &&& field(r(Reg::GpioaModer), 12, 2) == 0
            &&& field(r(Reg::GpioaModer), 14, 2) == 0
            &&& field(r(Reg::GpioaPupdr), 12, 4) == 0b1010
            &&& forall|reg: Reg|
                #![trigger r(reg)]
                r(reg) & !touched_mask(motor_setup_plan(), reg) == regs(reg) & !touched_mask(motor_setup_plan(), reg)
        }),
{
    broadcast use lemma_run_push, lemma_run_empty;
    lemma_run_plan_frame(regs, motor_setup_plan());
    let p = motor_setup_plan();
    assert(p =~= Seq::<BusOp>::empty().push(p[0]).push(p[1]).push(p[2]).push(p[3]).push(p[4]).push(
        p[5],
    ).push(p[6]).push(p[7]).push(p[8]).push(p[9]).push(p[10]).push(p[11]).push(p[12]).push(
        p[13],
    ));
    vstd::arithmetic::power2::lemma2_to64();
    lemma_set_clear_bit(regs(Reg::RccAhb1enr), 0);
    crate::bus::lemma_bit_constants();
    lemma_two_fields(regs(Reg::GpioaModer), 12, 2, 0, 14, 2, 0);
    lemma_set_field(regs(Reg::GpioaPupdr), 12, 4, 0b1010);
}

/// The levels of the two encoder channels in a GPIOA input data register
/// value: PA6 and PA7.
pub fn motor_read(idr: u32) -> (levels: (bool, bool))
    ensures
        levels == (idr & (1u32 << 6) != 0, idr & (1u32 << 7) != 0),
{
    let pa2_high = idr & (1u32 << 6) != 0;
    let pa3_high = idr & (1u32 << 7) != 0;
    (pa2_high, pa3_high)
}

/// A pair of encoder channel levels `(A, B)`.
pub type Levels = (bool, bool);

/// Position of a pair of levels in the quadrature (Gray code) cycle
/// `00 -> 01 -> 11 -> 10 -> 00`.
pub open spec fn phase(l: Levels) -> int {
    if !l.0 && !l.1 {
        0
    } else if !l.0 && l.1 {
        1
    } else if l.0 && l.1 {
        2
    } else {
        3
    }
}

/// `cur` is one step forward of `prev` in the quadrature cycle.
pub open spec fn is_forward(prev: Levels, cur: Levels) -> bool {
    phase(cur) == (phase(prev) + 1) % 4
}

/// `cur` is one step backward of `prev` in the quadrature cycle.
pub open spec fn is_backward(prev: Levels, cur: Levels) -> bool {
    phase(cur) == (phase(prev) + 3) % 4
}

/// The change of the tick count caused by observing `cur` after `prev`:
/// `+1` forward, `-1` backward, `0` for no change or an invalid jump of
/// both channels at once.
pub open spec fn tick_delta(prev: Levels, cur: Levels) -> int {
    if is_forward(prev, cur) {
        1
    } else if is_backward(prev, cur) {
        -1
    } else {
        0
    }
}

/// Abstract state of an encoder.
pub struct EncoderState {
    pub prev: Levels,
    pub count: int,
    pub counts_per_rev: int,
}

/// The state after observing `cur`.
pub open spec fn step(s: EncoderState, cur: Levels) -> EncoderState {
    EncoderState {
        prev: cur,
        count: s.count + tick_delta(s.prev, cur),
        counts_per_rev: s.counts_per_rev,
    }
}

/// The state after observing each of `obs` in turn.
pub open spec fn run(s: EncoderState, obs: Seq<Levels>) -> EncoderState
    decreases obs.len(),
{
    if obs.len() == 0 {
        s
    } else {
        run(step(s, obs[0]), obs.drop_first())
    }
}

/// Whether going from `prev` to `cur` is a forward and whether it is a
/// backward transition.
fn classify(prev: (bool, bool), cur: (bool, bool)) -> (r: (bool, bool))
    ensures
        r.0 == is_forward(prev, cur),
        r.1 == is_backward(prev, cur),
{
    let (prev_a, prev_b) = prev;
    let (curr_a, curr_b) = cur;
    let forward = (!prev_a && !prev_b && !curr_a && curr_b) || (!prev_a && prev_b && curr_a
        && curr_b) || (prev_a && prev_b && curr_a && !curr_b) || (prev_a && !prev_b && !curr_a
        && !curr_b);
    let backward = (!prev_a && !prev_b && curr_a && !curr_b) || (prev_a && !prev_b && curr_a
        && curr_b) || (prev_a && prev_b && !curr_a && curr_b) || (!prev_a && prev_b && !curr_a
        && !curr_b);
    (forward, backward)
}

/// Counts quadrature transitions of two encoder channels.
pub struct Encoder {
    prev: (bool, bool),
    count: i32,
    counts_per_rev: i32,
}

impl View for Encoder {
    type V = EncoderState;

    closed spec fn view(&self) -> EncoderState {
        EncoderState {
            prev: self.prev,
            count: self.count as int,
            counts_per_rev: self.counts_per_rev as int,
        }
    }
}

impl Encoder {
    /// An encoder whose channels currently read `initial_state`, with a
    /// tick count of zero.
    pub fn new(initial_state: (bool, bool), counts_per_rev: i32) -> (e: Self)
        ensures
            e@.prev == initial_state,
            e@.count == 0,
            e@.counts_per_rev == counts_per_rev,
    {
        Self { prev: initial_state, count: 0, counts_per_rev }
    }

    /// Feed the channel levels read now. A forward transition adds one
    /// tick, a backward one removes one, anything else leaves the count.
    pub fn update(&mut self, current: (bool, bool))
        requires
            is_forward(old(self)@.prev, current) ==> old(self)@.count < i32::MAX,
            is_backward(old(self)@.prev, current) ==> old(self)@.count > i32::MIN,
        ensures
            final(self)@ == step(old(self)@, current),
    {
        let (forward, backward) = classify(self.prev, current);
        if forward {
            self.count = self.count + 1;
        } else if backward {
            self.count = self.count - 1;
        }
        self.prev = current;
    }

    /// Whether [`Encoder::update`] can take `current` without the tick
    /// count leaving the `i32` range.
    pub fn update_allowed(&self, current: (bool, bool)) -> (b: bool)
        ensures
            b == ((is_forward(self@.prev, current) ==> self@.count < i32::MAX) && (is_backward(
                self@.prev,
                current,
            ) ==> self@.count > i32::MIN)),
    {
        let (forward, backward) = classify(self.prev, current);
        (!forward || self.count < i32::MAX) && (!backward || self.count > i32::MIN)
    }

    /// The current tick count.
    pub fn ticks(&self) -> (t: i32)
        ensures
            t == self@.count,
    {
        self.count
    }
}

/// Observing the levels that were there before undoes an observation:
/// a step to `cur` followed by a step back to the earlier levels leaves the
/// tick count where it started.
pub proof fn lemma_step_back_restores_count(s: EncoderState, cur: Levels)
    ensures
        step(step(s, cur), s.prev).count == s.count,
        step(step(s, cur), s.prev).prev == s.prev,
{
}

/// A forward transition read in reverse is a backward one, and the other way
/// round.
pub proof fn lemma_forward_iff_reverse_backward(a: Levels, b: Levels)
    ensures
        is_forward(a, b) <==> is_backward(b, a),
        tick_delta(a, b) == -tick_delta(b, a),
{
}

/// Each observation changes the count by at most one tick, and seeing the
/// same levels again changes nothing.
pub proof fn lemma_delta_bounded(a: Levels, b: Levels)
    ensures
        -1 <= tick_delta(a, b) <= 1,
        tick_delta(a, a) == 0,
        (a.0 != b.0 && a.1 != b.1) ==> tick_delta(a, b) == 0,
{
}

/// Observing one more level pair after a sequence of observations is one
/// more step from the state that the sequence reached.
pub proof fn lemma_run_append(s: EncoderState, obs: Seq<Levels>, cur: Levels)
    ensures
        run(s, obs.push(cur)) == step(run(s, obs), cur),
    decreases obs.len(),
{
    reveal_with_fuel(run, 2);
    if obs.len() == 0 {
        assert(obs.push(cur).drop_first() =~= Seq::<Levels>::empty());
    } else {
        assert(obs.push(cur)[0] == obs[0]);
        assert(obs.push(cur).drop_first() =~= obs.drop_first().push(cur));
        lemma_run_append(step(s, obs[0]), obs.drop_first(), cur);
    }
}

/// Turning the shaft one full quadrature cycle forward, from whatever levels
/// the encoder last saw, adds four ticks and brings the levels back.
pub proof fn lemma_full_cycle_forward(s: EncoderState)
    ensures
        ({
            let p = s.prev;
            let cycle: Seq<Levels> = seq![(p.1, !p.0), (!p.0, !p.1), (!p.1, p.0), p];
            let t = run(s, cycle);
            t.count == s.count + 4 && t.prev == s.prev
        }),
{
    let p = s.prev;
    let cycle: Seq<Levels> = seq![(p.1, !p.0), (!p.0, !p.1), (!p.1, p.0), p];
    let c1: Seq<Levels> = seq![(!p.0, !p.1), (!p.1, p.0), p];
    let c2: Seq<Levels> = seq![(!p.1, p.0), p];
    let c3: Seq<Levels> = seq![p];
    reveal_with_fuel(run, 5);
    assert(cycle.drop_first() =~= c1);
    assert(c1.drop_first() =~= c2);
    assert(c2.drop_first() =~= c3);
    assert(c3.drop_first() =~= Seq::<Levels>::empty());
}

/// Each observation moves the count by at most one tick, so `k`
/// observations move it by at most `k`; the counts-per-revolution setting
/// never changes.
pub proof fn lemma_run_count_bounded(s: EncoderState, obs: Seq<Levels>)
    ensures
        s.count - obs.len() <= run(s, obs).count <= s.count + obs.len(),
        run(s, obs).counts_per_rev == s.counts_per_rev,
    decreases obs.len(),
{
    if obs.len() > 0 {
        lemma_run_count_bounded(step(s, obs[0]), obs.drop_first());
    }
}

/// An encoder made by [`Encoder::new`] and then fed `k` level pairs through
/// [`Encoder::update`] (whose contract is one `step` each) reports at most
/// `k` ticks either way.
pub proof fn lemma_ticks_bounded_after_updates(
    initial_state: Levels,
    counts_per_rev: i32,
    obs: Seq<Levels>,
)
    ensures
        ({
            let start = EncoderState {
                prev: initial_state,
                count: 0,
                counts_per_rev: counts_per_rev as int,
            };
            -(obs.len() as int) <= run(start, obs).count <= obs.len()
        }),
{
    let start = EncoderState { prev: initial_state, count: 0, counts_per_rev: counts_per_rev as int };
    lemma_run_count_bounded(start, obs);
}

} // verus!

//! I2C1 master on PB8 (SCL) / PB9 (SDA): initialisation and the register
//! sequences of single-byte reads, burst writes and burst reads.
use vstd::prelude::*;
use crate::bus::{
    BusOp, Reg, field, run_plan, lemma_run_push, lemma_run_empty, touched_mask, lemma_run_plan_frame,
    lemma_set_clear_bit,
    lemma_set_field, lemma_two_bits, lemma_two_fields, lemma_modify_all, lemma_pulse_then_set, clear_bit, set_bit, set_field, wait_clear, wait_set, spec_clear_bit,
    spec_set_bit, spec_set_field, spec_wait_clear, spec_wait_set, writes_to, receives_from,
    lemma_writes_to_concat, lemma_receives_from_concat, without_console,
    lemma_without_console_concat, lemma_without_console_single, lemma_without_console_keeps,
    lemma_without_console_pair, lemma_no_receive, lemma_passive_run, lemma_ack_stop_bits,
    lemma_run_concat, is_passive,
};
use crate::uart::{print_ops, uart2_print, lemma_without_console_tx_all};

verus! {

/// I2C control register 1 bits.
pub const I2C_CR1_PE: u32 = 0;
pub const I2C_CR1_START: u32 = 8;
pub const I2C_CR1_STOP: u32 = 9;
pub const I2C_CR1_ACK: u32 = 10;
pub const I2C_CR1_SWRST: u32 = 15;

/// I2C status register 1 bits.
pub const I2C_SR1_SB: u32 = 0;
pub const I2C_SR1_ADDR: u32 = 1;
pub const I2C_SR1_BTF: u32 = 2;
pub const I2C_SR1_RXNE: u32 = 6;
pub const I2C_SR1_TXE: u32 = 7;

/// I2C status register 2 bits.
pub const I2C_SR2_BUSY: u32 = 1;

/// The address byte that selects device `saddr` for writing: the address
/// shifted left by one (within a byte) with a clear R/W bit.
pub open spec fn write_address(saddr: u8) -> u8 {
    ((saddr as int * 2) % 256) as u8
}

/// The address byte that selects device `saddr` for reading: the address
/// shifted left by one (within a byte) with a set R/W bit.
pub open spec fn read_address(saddr: u8) -> u8 {
    ((saddr as int * 2) % 256 + 1) as u8
}

/// The address byte to write to device `saddr`.
pub fn i2c_write_address(saddr: u8) -> (a: u8)
    ensures
        a == write_address(saddr),
{
    assert(saddr << 1u8 == ((saddr as int * 2) % 256) as u8) by (bit_vector);
    saddr << 1
}

/// The address byte to read from device `saddr`.
pub fn i2c_read_address(saddr: u8) -> (a: u8)
    ensures
        a == read_address(saddr),
{
    assert((saddr << 1u8) | 1u8 == ((saddr as int * 2) % 256 + 1) as u8) by (bit_vector);
    (saddr << 1) | 1
}

/// Both address bytes carry the low seven bits of the device address; the
/// write one has the R/W bit clear and the read one has it set.
pub proof fn lemma_address_bytes(saddr: u8)
    ensures
        write_address(saddr) % 2 == 0,
        read_address(saddr) == write_address(saddr) + 1,
        write_address(saddr) / 2 == saddr % 128,
        read_address(saddr) / 2 == saddr % 128,
{
}

/// Put a byte into the data register.
pub open spec fn send_byte(b: u8) -> BusOp {
    BusOp::Write { reg: Reg::I2c1Dr, value: b as u32 }
}

/// Wait for a free bus, send a start condition and address device `saddr`
/// for writing, then clear the address flag.
pub open spec fn address_for_write(saddr: u8) -> Seq<BusOp> {
    seq![
        wait_clear(Reg::I2c1Sr2, I2C_SR2_BUSY),
        set_bit(Reg::I2c1Cr1, I2C_CR1_START),
        wait_set(Reg::I2c1Sr1, I2C_SR1_SB),
        send_byte(write_address(saddr)),
        wait_set(Reg::I2c1Sr1, I2C_SR1_ADDR),
        BusOp::Read { reg: Reg::I2c1Sr2 },
    ]
}

fn push_address_for_write(ops: &mut Vec<BusOp>, saddr: u8)
    ensures
        final(ops)@ == old(ops)@ + address_for_write(saddr),
{
    ops.push(wait_clear(Reg::I2c1Sr2, I2C_SR2_BUSY));
    ops.push(set_bit(Reg::I2c1Cr1, I2C_CR1_START));
    ops.push(wait_set(Reg::I2c1Sr1, I2C_SR1_SB));
    ops.push(BusOp::Write { reg: Reg::I2c1Dr, value: i2c_write_address(saddr) as u32 });
    ops.push(wait_set(Reg::I2c1Sr1, I2C_SR1_ADDR));
    ops.push(BusOp::Read { reg: Reg::I2c1Sr2 });
    assert(final(ops)@ =~= old(ops)@ + address_for_write(saddr));
}

/// The plan of [`i2c1_init`].
pub open spec fn i2c1_init_plan() -> Seq<BusOp> {
    seq![
        set_bit(Reg::RccAhb1enr, 1),
        set_field(Reg::GpiobModer, 16, 2, 2),
        set_field(Reg::GpiobModer, 18, 2, 2),
        set_bit(Reg::GpiobOtyper, 8),
        set_bit(Reg::GpiobOtyper, 9),
        set_field(Reg::GpiobPupdr, 16, 2, 1),
        set_field(Reg::GpiobPupdr, 18, 2, 1),
        set_field(Reg::GpiobAfrh, 0, 4, 4),
        set_field(Reg::GpiobAfrh, 4, 4, 4),
        set_bit(Reg::RccApb1enr, 21),
        set_bit(Reg::I2c1Cr1, I2C_CR1_SWRST),
        clear_bit(Reg::I2c1Cr1, I2C_CR1_SWRST),
        set_field(Reg::I2c1Cr2, 0, 6, 16),
        BusOp::Modify { reg: Reg::I2c1Ccr, mask: 0xFFFF_FFFF, value: 80 },
        BusOp::Modify { reg: Reg::I2c1Trise, mask: 0xFFFF_FFFF, value: 17 },
        set_bit(Reg::I2c1Cr1, I2C_CR1_PE),
    ]
}

/// I2C1 in standard mode (100 kHz from a 16 MHz peripheral clock) on PB8/PB9
/// as open-drain, pulled-up alternate function 4 pins.
pub fn i2c1_init() -> (ops: Vec<BusOp>)
    ensures
        ops@ == i2c1_init_plan(),
{
    proof {
        vstd::arithmetic::power2::lemma2_to64();
    }
    let mut ops = Vec::new();
    ops.push(set_bit(Reg::RccAhb1enr, 1));
    ops.push(set_field(Reg::GpiobModer, 16, 2, 2));
    ops.push(set_field(Reg::GpiobModer, 18, 2, 2));
    ops.push(set_bit(Reg::GpiobOtyper, 8));
    ops.push(set_bit(Reg::GpiobOtyper, 9));
    ops.push(set_field(Reg::GpiobPupdr, 16, 2, 1));
    ops.push(set_field(Reg::GpiobPupdr, 18, 2, 1));
    ops.push(set_field(Reg::GpiobAfrh, 0, 4, 4));
    ops.push(set_field(Reg::GpiobAfrh, 4, 4, 4));
    ops.push(set_bit(Reg::RccApb1enr, 21));
    ops.push(set_bit(Reg::I2c1Cr1, I2C_CR1_SWRST));
    ops.push(clear_bit(Reg::I2c1Cr1, I2C_CR1_SWRST));
    ops.push(set_field(Reg::I2c1Cr2, 0, 6, 16));
    ops.push(BusOp::Modify { reg: Reg::I2c1Ccr, mask: 0xFFFF_FFFF, value: 80 });
    ops.push(BusOp::Modify { reg: Reg::I2c1Trise, mask: 0xFFFF_FFFF, value: 17 });
    ops.push(set_bit(Reg::I2c1Cr1, I2C_CR1_PE));
    ops
}

/// Whatever the registers held before, after [`i2c1_init`] the GPIOB and
/// I2C1 clocks run; PB8 and PB9 are alternate-function (AF4), open-drain,
/// pulled-up pins; and I2C1 is out of reset and enabled with FREQ = 16 MHz,
/// CCR = 80 and TRISE = 17.
/// No bit outside the masks of the plan's steps changes.
pub proof fn lemma_i2c1_init_effect(regs: spec_fn(Reg) -> u32)
    ensures
        ({
            let r = run_plan(regs, i2c1_init_plan());
            &&& r(Reg::RccAhb1enr) & (1u32 << 1) != 0
            &&& field(r(Reg::GpiobModer), 16, 2) == 2
            &&& field(r(Reg::GpiobModer), 18, 2) == 2
            &&& r(Reg::GpiobOtyper) & (1u32 << 8) != 0
            &&& r(Reg::GpiobOtyper) & (1u32 << 9) != 0
            &&& field(r(Reg::GpiobPupdr), 16, 2) == 1
            &&& field(r(Reg::GpiobPupdr), 18, 2) == 1
            &&& field(r(Reg::GpiobAfrh), 0, 4) == 4
            &&& field(r(Reg::GpiobAfrh), 4, 4) == 4
            &&& r(Reg::RccApb1enr) & (1u32 << 21) != 0
            &&& r(Reg::I2c1Cr1) & (1u32 << I2C_CR1_SWRST) == 0
            &&& r(Reg::I2c1Cr1) & (1u32 << I2C_CR1_PE) != 0
            &&& field(r(Reg::I2c1Cr2), 0, 6) == 16
            &&& r(Reg::I2c1Ccr) == 80
            &&& r(Reg::I2c1Trise) == 17
            &&& forall|reg: Reg|
                #![trigger r(reg)]
                r(reg) & !touched_mask(i2c1_init_plan(), reg) == regs(reg) & !touched_mask(i2c1_init_plan(), reg)
        }),
{
    broadcast use lemma_run_push, lemma_run_empty;
    lemma_run_plan_frame(regs, i2c1_init_plan());
    let p = i2c1_init_plan();
    assert(p =~= Seq::<BusOp>::empty().push(p[0]).push(p[1]).push(p[2]).push(p[3]).push(p[4]).push(
        p[5],
    ).push(p[6]).push(p[7]).push(p[8]).push(p[9]).push(p[10]).push(p[11]).push(p[12]).push(
        p[13],
    ).push(p[14]).push(p[15]));
    vstd::arithmetic::power2::lemma2_to64();
    lemma_set_clear_bit(regs(Reg::RccAhb1enr), 1);
    lemma_two_fields(regs(Reg::GpiobModer), 16, 2, 2, 18, 2, 2);
    lemma_two_bits(regs(Reg::GpiobOtyper), 8, 9);
    lemma_two_fields(regs(Reg::GpiobPupdr), 16, 2, 1, 18, 2, 1);
    lemma_two_fields(regs(Reg::GpiobAfrh), 0, 4, 4, 4, 4, 4);
    lemma_set_clear_bit(regs(Reg::RccApb1enr), 21);
    lemma_pulse_then_set(regs(Reg::I2c1Cr1), I2C_CR1_SWRST, I2C_CR1_PE);
    lemma_set_field(regs(Reg::I2c1Cr2), 0, 6, 16);
    lemma_modify_all(regs(Reg::I2c1Ccr), 80);
    lemma_modify_all(regs(Reg::I2c1Trise), 17);
}

/// The plan of a single-byte register read: address the device for
/// writing, send the register address, restart for reading, refuse to
/// acknowledge, request a stop and take the byte.
pub open spec fn byte_read_plan(saddr: u8, maddr: u8) -> Seq<BusOp> {
    address_for_write(saddr) + seq![
        send_byte(maddr),
        wait_set(Reg::I2c1Sr1, I2C_SR1_TXE),
        set_bit(Reg::I2c1Cr1, I2C_CR1_START),
        wait_set(Reg::I2c1Sr1, I2C_SR1_SB),
        send_byte(read_address(saddr)),
        wait_set(Reg::I2c1Sr1, I2C_SR1_ADDR),
        clear_bit(Reg::I2c1Cr1, I2C_CR1_ACK),
        BusOp::Read { reg: Reg::I2c1Sr2 },
        set_bit(Reg::I2c1Cr1, I2C_CR1_STOP),
        wait_set(Reg::I2c1Sr1, I2C_SR1_RXNE),
        BusOp::Receive { reg: Reg::I2c1Dr },
    ]
}

/// Read one byte from register `maddr` of device `saddr`.
pub fn i2c1_byte_read(saddr: u8, maddr: u8) -> (ops: Vec<BusOp>)
    ensures
        ops@ == byte_read_plan(saddr, maddr),
{
    let mut ops = Vec::new();
    push_address_for_write(&mut ops, saddr);
    ops.push(BusOp::Write { reg: Reg::I2c1Dr, value: maddr as u32 });
    ops.push(wait_set(Reg::I2c1Sr1, I2C_SR1_TXE));
    ops.push(set_bit(Reg::I2c1Cr1, I2C_CR1_START));
    ops.push(wait_set(Reg::I2c1Sr1, I2C_SR1_SB));
    ops.push(BusOp::Write { reg: Reg::I2c1Dr, value: i2c_read_address(saddr) as u32 });
    ops.push(wait_set(Reg::I2c1Sr1, I2C_SR1_ADDR));
    ops.push(clear_bit(Reg::I2c1Cr1, I2C_CR1_ACK));
    ops.push(BusOp::Read { reg: Reg::I2c1Sr2 });
    ops.push(set_bit(Reg::I2c1Cr1, I2C_CR1_STOP));
    ops.push(wait_set(Reg::I2c1Sr1, I2C_SR1_RXNE));
    ops.push(BusOp::Receive { reg: Reg::I2c1Dr });
    assert(ops@ =~= byte_read_plan(saddr, maddr));
    ops
}

/// Sending each of `data` once the data register is empty.
pub open spec fn tx_data(data: Seq<u8>) -> Seq<BusOp>
    decreases data.len(),
{
    if data.len() == 0 {
        Seq::empty()
    } else {
        tx_data(data.drop_last()) + seq![
            wait_set(Reg::I2c1Sr1, I2C_SR1_TXE),
            send_byte(data.last()),
        ]
    }
}

/// The plan of a burst write of `data` to the registers from `maddr` on.
pub open spec fn burst_write_plan(saddr: u8, maddr: u8, data: Seq<u8>) -> Seq<BusOp> {
    address_for_write(saddr) + seq![wait_set(Reg::I2c1Sr1, I2C_SR1_TXE), send_byte(maddr)]
        + tx_data(data) + seq![
        wait_set(Reg::I2c1Sr1, I2C_SR1_BTF),
        set_bit(Reg::I2c1Cr1, I2C_CR1_STOP),
    ]
}

/// Write the first `n` bytes of `data` to the registers of device `saddr`
/// from `maddr` on.
pub fn i2c1_burst_write(saddr: u8, maddr: u8, n: usize, data: &[u8]) -> (ops: Vec<BusOp>)
    requires
        n <= data@.len(),
    ensures
        ops@ == burst_write_plan(saddr, maddr, data@.take(n as int)),
{
    let mut ops = Vec::new();
    push_address_for_write(&mut ops, saddr);
    ops.push(wait_set(Reg::I2c1Sr1, I2C_SR1_TXE));
    ops.push(BusOp::Write { reg: Reg::I2c1Dr, value: maddr as u32 });
    let ghost head = ops@;
    let mut i: usize = 0;
    while i < n
        invariant
            n <= data@.len(),
            i <= n,
            ops@ == head + tx_data(data@.take(i as int)),
        decreases n - i,
    {
        assert(data@.take(i + 1).drop_last() =~= data@.take(i as int));
        ops.push(wait_set(Reg::I2c1Sr1, I2C_SR1_TXE));
        ops.push(BusOp::Write { reg: Reg::I2c1Dr, value: data[i] as u32 });
        i = i + 1;
        assert(ops@ =~= head + tx_data(data@.take(i as int)));
    }
    ops.push(wait_set(Reg::I2c1Sr1, I2C_SR1_BTF));
    ops.push(set_bit(Reg::I2c1Cr1, I2C_CR1_STOP));
    assert(ops@ =~= burst_write_plan(saddr, maddr, data@.take(n as int)));
    ops
}

/// Receiving `k` bytes while acknowledging each of them.
pub open spec fn rx_acked(k: nat) -> Seq<BusOp>
    decreases k,
{
    if k == 0 {
        Seq::empty()
    } else {
        rx_acked((k - 1) as nat) + seq![
            wait_set(Reg::I2c1Sr1, I2C_SR1_RXNE),
            BusOp::Receive { reg: Reg::I2c1Dr },
        ]
    }
}

/// Receiving `n` bytes: all but the last acknowledged; before the last one
/// the acknowledge is withdrawn and a stop is requested.
pub open spec fn rx_data(n: nat) -> Seq<BusOp> {
    if n == 0 {
        Seq::empty()
    } else {
        rx_acked((n - 1) as nat) + seq![
            clear_bit(Reg::I2c1Cr1, I2C_CR1_ACK),
            set_bit(Reg::I2c1Cr1, I2C_CR1_STOP),
            wait_set(Reg::I2c1Sr1, I2C_SR1_RXNE),
            BusOp::Receive { reg: Reg::I2c1Dr },
        ]
    }
}

/// The plan of a burst read of `n` bytes from the registers from `maddr` on.
pub open spec fn burst_read_plan(saddr: u8, maddr: u8, n: nat) -> Seq<BusOp> {
    address_for_write(saddr) + seq![
        wait_set(Reg::I2c1Sr1, I2C_SR1_TXE),
        send_byte(maddr),
        wait_set(Reg::I2c1Sr1, I2C_SR1_TXE),
        set_bit(Reg::I2c1Cr1, I2C_CR1_START),
        wait_set(Reg::I2c1Sr1, I2C_SR1_SB),
        send_byte(read_address(saddr)),
        wait_set(Reg::I2c1Sr1, I2C_SR1_ADDR),
        BusOp::Read { reg: Reg::I2c1Sr2 },
        set_bit(Reg::I2c1Cr1, I2C_CR1_ACK),
    ] + rx_data(n)
}

/// Read `n` bytes (the length of the caller's buffer) from the registers of
/// device `saddr` from `maddr` on.
pub fn i2c1_burst_read(saddr: u8, maddr: u8, n: usize) -> (ops: Vec<BusOp>)
    ensures
        ops@ == burst_read_plan(saddr, maddr, n as nat),
{
    let mut ops = Vec::new();
    push_address_for_write(&mut ops, saddr);
    ops.push(wait_set(Reg::I2c1Sr1, I2C_SR1_TXE));
    ops.push(BusOp::Write { reg: Reg::I2c1Dr, value: maddr as u32 });
    ops.push(wait_set(Reg::I2c1Sr1, I2C_SR1_TXE));
    ops.push(set_bit(Reg::I2c1Cr1, I2C_CR1_START));
    ops.push(wait_set(Reg::I2c1Sr1, I2C_SR1_SB));
    ops.push(BusOp::Write { reg: Reg::I2c1Dr, value: i2c_read_address(saddr) as u32 });
    ops.push(wait_set(Reg::I2c1Sr1, I2C_SR1_ADDR));
    ops.push(BusOp::Read { reg: Reg::I2c1Sr2 });
    ops.push(set_bit(Reg::I2c1Cr1, I2C_CR1_ACK));
    let ghost head = ops@;
    assert(head =~= burst_read_plan(saddr, maddr, 0));
    let mut i: usize = 0;
    while i < n
        invariant
            i <= n,
            ops@ == head + (if i < n { rx_acked(i as nat) } else { rx_data(n as nat) }),
        decreases n - i,
    {
        if i == n - 1 {
            ops.push(clear_bit(Reg::I2c1Cr1, I2C_CR1_ACK));
            ops.push(set_bit(Reg::I2c1Cr1, I2C_CR1_STOP));
            ops.push(wait_set(Reg::I2c1Sr1, I2C_SR1_RXNE));
            ops.push(BusOp::Receive { reg: Reg::I2c1Dr });
        } else {
            ops.push(wait_set(Reg::I2c1Sr1, I2C_SR1_RXNE));
            ops.push(BusOp::Receive { reg: Reg::I2c1Dr });
        }
        i = i + 1;
        assert(ops@ =~= head + (if i < n { rx_acked(i as nat) } else { rx_data(n as nat) }));
    }
    assert(ops@ =~= burst_read_plan(saddr, maddr, n as nat));
    ops
}

/// The bytes put into the data register, as register values.
pub open spec fn as_words(data: Seq<u8>) -> Seq<u32> {
    data.map_values(|b: u8| b as u32)
}

proof fn lemma_tx_data(data: Seq<u8>)
    ensures
        writes_to(tx_data(data), Reg::I2c1Dr) == as_words(data),
        receives_from(tx_data(data), Reg::I2c1Dr) == 0,
    decreases data.len(),
{
    if data.len() > 0 {
        let tail = seq![wait_set(Reg::I2c1Sr1, I2C_SR1_TXE), send_byte(data.last())];
        lemma_tx_data(data.drop_last());
        lemma_writes_to_concat(tx_data(data.drop_last()), tail, Reg::I2c1Dr);
        lemma_receives_from_concat(tx_data(data.drop_last()), tail, Reg::I2c1Dr);
        reveal_with_fuel(writes_to, 3);
        reveal_with_fuel(receives_from, 3);
        assert(tail.drop_last() =~= seq![wait_set(Reg::I2c1Sr1, I2C_SR1_TXE)]);
        assert(seq![wait_set(Reg::I2c1Sr1, I2C_SR1_TXE)].drop_last() =~= Seq::<BusOp>::empty());
        assert(as_words(data) =~= as_words(data.drop_last()).push(data.last() as u32));
    }
}

proof fn lemma_rx_acked(k: nat)
    ensures
        writes_to(rx_acked(k), Reg::I2c1Dr) == Seq::<u32>::empty(),
        receives_from(rx_acked(k), Reg::I2c1Dr) == k,
    decreases k,
{
    if k > 0 {
        let tail = seq![wait_set(Reg::I2c1Sr1, I2C_SR1_RXNE), BusOp::Receive { reg: Reg::I2c1Dr }];
        lemma_rx_acked((k - 1) as nat);
        lemma_writes_to_concat(rx_acked((k - 1) as nat), tail, Reg::I2c1Dr);
        lemma_receives_from_concat(rx_acked((k - 1) as nat), tail, Reg::I2c1Dr);
        reveal_with_fuel(writes_to, 3);
        reveal_with_fuel(receives_from, 3);
        assert(tail.drop_last() =~= seq![wait_set(Reg::I2c1Sr1, I2C_SR1_RXNE)]);
        assert(seq![wait_set(Reg::I2c1Sr1, I2C_SR1_RXNE)].drop_last() =~= Seq::<BusOp>::empty());
    }
}

/// A burst write puts on the bus, after the start condition, the write
/// address of the device, the register address and the data bytes, in this
/// order, and receives nothing.
#[verifier::rlimit(40)]
pub proof fn lemma_burst_write_bytes(saddr: u8, maddr: u8, data: Seq<u8>)
    ensures
        writes_to(burst_write_plan(saddr, maddr, data), Reg::I2c1Dr) == seq![
            write_address(saddr) as u32,
            maddr as u32,
        ] + as_words(data),
        receives_from(burst_write_plan(saddr, maddr, data), Reg::I2c1Dr) == 0,
{
    let a = address_for_write(saddr);
    let b = seq![wait_set(Reg::I2c1Sr1, I2C_SR1_TXE), send_byte(maddr)];
    let c = tx_data(data);
    let d = seq![wait_set(Reg::I2c1Sr1, I2C_SR1_BTF), set_bit(Reg::I2c1Cr1, I2C_CR1_STOP)];
    lemma_tx_data(data);
    lemma_writes_to_concat(a, b, Reg::I2c1Dr);
    lemma_writes_to_concat(a + b, c, Reg::I2c1Dr);
    lemma_writes_to_concat(a + b + c, d, Reg::I2c1Dr);
    lemma_receives_from_concat(a, b, Reg::I2c1Dr);
    lemma_receives_from_concat(a + b, c, Reg::I2c1Dr);
    lemma_receives_from_concat(a + b + c, d, Reg::I2c1Dr);
    reveal_with_fuel(writes_to, 7);
    reveal_with_fuel(receives_from, 7);
    assert(writes_to(a, Reg::I2c1Dr) =~= seq![write_address(saddr) as u32]);
    assert(writes_to(b, Reg::I2c1Dr) =~= seq![maddr as u32]);
    assert(writes_to(d, Reg::I2c1Dr) =~= Seq::<u32>::empty());
}

proof fn lemma_read_header(saddr: u8, maddr: u8)
    ensures
        ({
            let h = burst_read_plan(saddr, maddr, 0);
            &&& writes_to(h, Reg::I2c1Dr) == seq![
                write_address(saddr) as u32,
                maddr as u32,
                read_address(saddr) as u32,
            ]
            &&& receives_from(h, Reg::I2c1Dr) == 0
        }),
{
    let h = burst_read_plan(saddr, maddr, 0);
    reveal_with_fuel(writes_to, 16);
    reveal_with_fuel(receives_from, 16);
    assert(writes_to(h, Reg::I2c1Dr) =~= seq![
        write_address(saddr) as u32,
        maddr as u32,
        read_address(saddr) as u32,
    ]);
}

proof fn lemma_rx_data(n: nat)
    ensures
        writes_to(rx_data(n), Reg::I2c1Dr) == Seq::<u32>::empty(),
        receives_from(rx_data(n), Reg::I2c1Dr) == n,
{
    if n > 0 {
        let r = rx_acked((n - 1) as nat);
        let t = seq![
            clear_bit(Reg::I2c1Cr1, I2C_CR1_ACK),
            set_bit(Reg::I2c1Cr1, I2C_CR1_STOP),
            wait_set(Reg::I2c1Sr1, I2C_SR1_RXNE),
            BusOp::Receive { reg: Reg::I2c1Dr },
        ];
        lemma_rx_acked((n - 1) as nat);
        lemma_writes_to_concat(r, t, Reg::I2c1Dr);
        lemma_receives_from_concat(r, t, Reg::I2c1Dr);
        reveal_with_fuel(writes_to, 5);
        reveal_with_fuel(receives_from, 5);
        assert(writes_to(t, Reg::I2c1Dr) =~= Seq::<u32>::empty());
    }
}

/// A burst read of `n` bytes puts on the bus the write address, the
/// register address and the read address, in this order, and receives
/// exactly `n` bytes; when there is at least one byte, the acknowledge is
/// withdrawn and the stop requested right before the last byte is taken.
pub proof fn lemma_burst_read_bytes(saddr: u8, maddr: u8, n: nat)
    ensures
        writes_to(burst_read_plan(saddr, maddr, n), Reg::I2c1Dr) == seq![
            write_address(saddr) as u32,
            maddr as u32,
            read_address(saddr) as u32,
        ],
        receives_from(burst_read_plan(saddr, maddr, n), Reg::I2c1Dr) == n,
        n > 0 ==> {
            let p = burst_read_plan(saddr, maddr, n);
            &&& p[p.len() - 4] == clear_bit(Reg::I2c1Cr1, I2C_CR1_ACK)
            &&& p[p.len() - 3] == set_bit(Reg::I2c1Cr1, I2C_CR1_STOP)
            &&& p[p.len() - 1] == BusOp::Receive { reg: Reg::I2c1Dr }
        },
{
    let h = burst_read_plan(saddr, maddr, 0);
    let c = rx_data(n);
    assert(burst_read_plan(saddr, maddr, n) =~= h + c);
    lemma_read_header(saddr, maddr);
    lemma_rx_data(n);
    lemma_writes_to_concat(h, c, Reg::I2c1Dr);
    lemma_receives_from_concat(h, c, Reg::I2c1Dr);
    assert(writes_to(h, Reg::I2c1Dr) + writes_to(c, Reg::I2c1Dr) =~= writes_to(h, Reg::I2c1Dr));
}

/// A single-byte read puts on the bus the write address, the register
/// address and the read address, and receives one byte.
pub proof fn lemma_byte_read_bytes(saddr: u8, maddr: u8)
    ensures
        writes_to(byte_read_plan(saddr, maddr), Reg::I2c1Dr) == seq![
            write_address(saddr) as u32,
            maddr as u32,
            read_address(saddr) as u32,
        ],
        receives_from(byte_read_plan(saddr, maddr), Reg::I2c1Dr) == 1,
{
    let p = byte_read_plan(saddr, maddr);
    reveal_with_fuel(writes_to, 18);
    reveal_with_fuel(receives_from, 18);
    assert(writes_to(p, Reg::I2c1Dr) =~= seq![
        write_address(saddr) as u32,
        maddr as u32,
        read_address(saddr) as u32,
    ]);
}

/// Append the operations that print `msg` on USART2.
pub(crate) fn say(ops: &mut Vec<BusOp>, msg: &str)
    ensures
        final(ops)@ == old(ops)@ + print_ops(msg),
{
    let mut p = uart2_print(msg);
    ops.append(&mut p);
}

/// Append one operation.
fn step(ops: &mut Vec<BusOp>, op: BusOp)
    ensures
        final(ops)@ == old(ops)@ + seq![op],
{
    ops.push(op);
    assert(final(ops)@ =~= old(ops)@ + seq![op]);
}

/// Sending the data bytes of a burst write, each step reported on USART2.
pub open spec fn tx_data_dbg(data: Seq<u8>) -> Seq<BusOp>
    decreases data.len(),
{
    if data.len() == 0 {
        Seq::empty()
    } else {
        tx_data_dbg(data.drop_last()) + seq![wait_set(Reg::I2c1Sr1, I2C_SR1_TXE)] + print_ops(
            "9: txe is set\n",
        ) + seq![send_byte(data.last())] + print_ops("10: bits written to data register\n")
    }
}

/// The plan of a burst write that reports each step on USART2, including
/// the status register 1 right after the address byte was written.
pub open spec fn burst_write_dbg_plan(saddr: u8, maddr: u8, data: Seq<u8>) -> Seq<BusOp> {
    burst_write_dbg_head(saddr, maddr) + tx_data_dbg(data) + burst_write_dbg_tail()
}

/// The reporting burst write up to and including the register address.
pub open spec fn burst_write_dbg_head(saddr: u8, maddr: u8) -> Seq<BusOp> {
    print_ops("0: entering burst write\n") + seq![wait_clear(Reg::I2c1Sr2, I2C_SR2_BUSY)]
        + print_ops("1: finished checking busy\n") + seq![set_bit(Reg::I2c1Cr1, I2C_CR1_START)]
        + print_ops("2: set start bit\n") + seq![wait_set(Reg::I2c1Sr1, I2C_SR1_SB)] + print_ops(
        "3: sb bit is clear\n",
    ) + seq![send_byte(write_address(saddr)), BusOp::Sample { reg: Reg::I2c1Sr1 }] + print_ops(
        "4: data register write complete, SR1 = 0x",
    ) + seq![BusOp::SendSampleHex { digits: 4 }] + print_ops("\n") + print_ops(
        "4: data register write complete\n",
    ) + seq![wait_set(Reg::I2c1Sr1, I2C_SR1_ADDR)] + print_ops("5: addr flag is set\n") + seq![
        BusOp::Read { reg: Reg::I2c1Sr2 },
    ] + print_ops("6: sr2 bits are read\n") + seq![wait_set(Reg::I2c1Sr1, I2C_SR1_TXE)]
        + print_ops("7: txe register is empty\n") + seq![send_byte(maddr)] + print_ops(
        "8: write to memory address\n",
    )
}

/// The reporting burst write after the data bytes.
pub open spec fn burst_write_dbg_tail() -> Seq<BusOp> {
    seq![wait_set(Reg::I2c1Sr1, I2C_SR1_BTF)] + print_ops("11: btf is set\n") + seq![
        set_bit(Reg::I2c1Cr1, I2C_CR1_STOP),
    ] + print_ops("12: stop\n")
}

/// [`i2c1_burst_write`] reporting each step on USART2.
pub fn i2c1_burst_write_dbg(saddr: u8, maddr: u8, n: usize, data: &[u8]) -> (ops: Vec<BusOp>)
    requires
        n <= data@.len(),
    ensures
        ops@ == burst_write_dbg_plan(saddr, maddr, data@.take(n as int)),
{
    let mut ops: Vec<BusOp> = Vec::new();
    assert(ops@ =~= Seq::<BusOp>::empty());
    say(&mut ops, "0: entering burst write\n");
    step(&mut ops, wait_clear(Reg::I2c1Sr2, I2C_SR2_BUSY));
    say(&mut ops, "1: finished checking busy\n");
    step(&mut ops, set_bit(Reg::I2c1Cr1, I2C_CR1_START));
    say(&mut ops, "2: set start bit\n");
    step(&mut ops, wait_set(Reg::I2c1Sr1, I2C_SR1_SB));
    say(&mut ops, "3: sb bit is clear\n");
    let ghost before_addr = ops@;
    ops.push(BusOp::Write { reg: Reg::I2c1Dr, value: i2c_write_address(saddr) as u32 });
    ops.push(BusOp::Sample { reg: Reg::I2c1Sr1 });
    assert(ops@ =~= before_addr + seq![
        send_byte(write_address(saddr)),
        BusOp::Sample { reg: Reg::I2c1Sr1 },
    ]);
    say(&mut ops, "4: data register write complete, SR1 = 0x");
    step(&mut ops, BusOp::SendSampleHex { digits: 4 });
    say(&mut ops, "\n");
    say(&mut ops, "4: data register write complete\n");
    step(&mut ops, wait_set(Reg::I2c1Sr1, I2C_SR1_ADDR));
    say(&mut ops, "5: addr flag is set\n");
    step(&mut ops, BusOp::Read { reg: Reg::I2c1Sr2 });
    say(&mut ops, "6: sr2 bits are read\n");
    step(&mut ops, wait_set(Reg::I2c1Sr1, I2C_SR1_TXE));
    say(&mut ops, "7: txe register is empty\n");
    step(&mut ops, BusOp::Write { reg: Reg::I2c1Dr, value: maddr as u32 });
    say(&mut ops, "8: write to memory address\n");
    let ghost head = ops@;
    let mut i: usize = 0;
    while i < n
        invariant
            n <= data@.len(),
            i <= n,
            ops@ == head + tx_data_dbg(data@.take(i as int)),
        decreases n - i,
    {
        assert(data@.take(i + 1).drop_last() =~= data@.take(i as int));
        step(&mut ops, wait_set(Reg::I2c1Sr1, I2C_SR1_TXE));
        say(&mut ops, "9: txe is set\n");
        step(&mut ops, BusOp::Write { reg: Reg::I2c1Dr, value: data[i] as u32 });
        say(&mut ops, "10: bits written to data register\n");
        i = i + 1;
        assert(ops@ =~= head + tx_data_dbg(data@.take(i as int)));
    }
    step(&mut ops, wait_set(Reg::I2c1Sr1, I2C_SR1_BTF));
    say(&mut ops, "11: btf is set\n");
    step(&mut ops, set_bit(Reg::I2c1Cr1, I2C_CR1_STOP));
    say(&mut ops, "12: stop\n");
    assert(ops@ =~= burst_write_dbg_plan(saddr, maddr, data@.take(n as int)));
    ops
}

/// The plan of a single-byte read that reports each step on USART2.
pub open spec fn byte_read_dbg_plan(saddr: u8, maddr: u8) -> Seq<BusOp> {
    print_ops("0: entering byte read\n") + seq![wait_clear(Reg::I2c1Sr2, I2C_SR2_BUSY)]
        + print_ops("1: not busy\n") + seq![set_bit(Reg::I2c1Cr1, I2C_CR1_START)] + print_ops(
        "2: start bit set\n",
    ) + seq![wait_set(Reg::I2c1Sr1, I2C_SR1_SB)] + print_ops("3: start bit complete\n") + seq![
        send_byte(write_address(saddr)),
    ] + print_ops("4: set dr slave address\n") + seq![wait_set(Reg::I2c1Sr1, I2C_SR1_ADDR)]
        + print_ops("5: add bit clear\n") + seq![BusOp::Read { reg: Reg::I2c1Sr2 }] + print_ops(
        "6: clear sr2\n",
    ) + seq![send_byte(maddr)] + print_ops("7: send memory address\n") + seq![
        wait_set(Reg::I2c1Sr1, I2C_SR1_TXE),
    ] + print_ops("8: sr1 transmitter empty\n") + seq![set_bit(Reg::I2c1Cr1, I2C_CR1_START)]
        + print_ops("9: generate restart\n") + seq![wait_set(Reg::I2c1Sr1, I2C_SR1_SB)]
        + print_ops("10: wait until start flag is set\n") + seq![send_byte(read_address(saddr))]
        + print_ops("11: write read bytes\n") + seq![wait_set(Reg::I2c1Sr1, I2C_SR1_ADDR)]
        + print_ops("12: sddr flag is set\n") + seq![clear_bit(Reg::I2c1Cr1, I2C_CR1_ACK)]
        + print_ops("13: disabel ack bit\n") + seq![BusOp::Read { reg: Reg::I2c1Sr2 }] + print_ops(
        "14: read to clear sr2\n",
    ) + seq![set_bit(Reg::I2c1Cr1, I2C_CR1_STOP)] + print_ops("15: generate stop\n") + seq![
        wait_set(Reg::I2c1Sr1, I2C_SR1_RXNE),
    ] + print_ops("16: rxne flag is set") + seq![BusOp::Receive { reg: Reg::I2c1Dr }] + print_ops(
        "cmplt: read from dr",
    )
}

/// [`i2c1_byte_read`] reporting each step on USART2.
pub fn i2c1_byte_read_dbg(saddr: u8, maddr: u8) -> (ops: Vec<BusOp>)
    ensures
        ops@ == byte_read_dbg_plan(saddr, maddr),
{
    let mut ops: Vec<BusOp> = Vec::new();
    assert(ops@ =~= Seq::<BusOp>::empty());
    say(&mut ops, "0: entering byte read\n");
    step(&mut ops, wait_clear(Reg::I2c1Sr2, I2C_SR2_BUSY));
    say(&mut ops, "1: not busy\n");
    step(&mut ops, set_bit(Reg::I2c1Cr1, I2C_CR1_START));
    say(&mut ops, "2: start bit set\n");
    step(&mut ops, wait_set(Reg::I2c1Sr1, I2C_SR1_SB));
    say(&mut ops, "3: start bit complete\n");
    step(&mut ops, BusOp::Write { reg: Reg::I2c1Dr, value: i2c_write_address(saddr) as u32 });
    say(&mut ops, "4: set dr slave address\n");
    step(&mut ops, wait_set(Reg::I2c1Sr1, I2C_SR1_ADDR));
    say(&mut ops, "5: add bit clear\n");
    step(&mut ops, BusOp::Read { reg: Reg::I2c1Sr2 });
    say(&mut ops, "6: clear sr2\n");
    step(&mut ops, BusOp::Write { reg: Reg::I2c1Dr, value: maddr as u32 });
    say(&mut ops, "7: send memory address\n");
    step(&mut ops, wait_set(Reg::I2c1Sr1, I2C_SR1_TXE));
    say(&mut ops, "8: sr1 transmitter empty\n");
    step(&mut ops, set_bit(Reg::I2c1Cr1, I2C_CR1_START));
    say(&mut ops, "9: generate restart\n");
    step(&mut ops, wait_set(Reg::I2c1Sr1, I2C_SR1_SB));
    say(&mut ops, "10: wait until start flag is set\n");
    step(&mut ops, BusOp::Write { reg: Reg::I2c1Dr, value: i2c_read_address(saddr) as u32 });
    say(&mut ops, "11: write read bytes\n");
    step(&mut ops, wait_set(Reg::I2c1Sr1, I2C_SR1_ADDR));
    say(&mut ops, "12: sddr flag is set\n");
    step(&mut ops, clear_bit(Reg::I2c1Cr1, I2C_CR1_ACK));
    say(&mut ops, "13: disabel ack bit\n");
    step(&mut ops, BusOp::Read { reg: Reg::I2c1Sr2 });
    say(&mut ops, "14: read to clear sr2\n");
    step(&mut ops, set_bit(Reg::I2c1Cr1, I2C_CR1_STOP));
    say(&mut ops, "15: generate stop\n");
    step(&mut ops, wait_set(Reg::I2c1Sr1, I2C_SR1_RXNE));
    say(&mut ops, "16: rxne flag is set");
    step(&mut ops, BusOp::Receive { reg: Reg::I2c1Dr });
    say(&mut ops, "cmplt: read from dr");
    assert(ops@ =~= byte_read_dbg_plan(saddr, maddr));
    ops
}

/// The reporting single-byte read performs the same steps as the plain one,
/// in the same order, besides its console output: it writes the same bytes
/// to the I2C data register and receives the same byte.
#[verifier::rlimit(60)]
pub proof fn lemma_byte_read_dbg_same_bus(saddr: u8, maddr: u8)
    ensures
        without_console(byte_read_dbg_plan(saddr, maddr)) == byte_read_plan(saddr, maddr),
        writes_to(byte_read_dbg_plan(saddr, maddr), Reg::I2c1Dr) == writes_to(
            byte_read_plan(saddr, maddr),
            Reg::I2c1Dr,
        ),
        receives_from(byte_read_dbg_plan(saddr, maddr), Reg::I2c1Dr) == receives_from(
            byte_read_plan(saddr, maddr),
            Reg::I2c1Dr,
        ),
{
    broadcast use
        lemma_without_console_concat,
        lemma_without_console_single,
        lemma_without_console_tx_all,
    ;

    assert(without_console(byte_read_dbg_plan(saddr, maddr)) =~= byte_read_plan(saddr, maddr));
    lemma_without_console_keeps(byte_read_dbg_plan(saddr, maddr), Reg::I2c1Dr);
}

proof fn lemma_tx_data_dbg_same_bus(data: Seq<u8>)
    ensures
        without_console(tx_data_dbg(data)) == tx_data(data),
    decreases data.len(),
{
    broadcast use
        lemma_without_console_concat,
        lemma_without_console_single,
        lemma_without_console_tx_all,
    ;

    if data.len() > 0 {
        lemma_tx_data_dbg_same_bus(data.drop_last());
        assert(without_console(tx_data_dbg(data)) =~= tx_data(data));
    }
}

proof fn lemma_burst_write_dbg_head_same_bus(saddr: u8, maddr: u8)
    ensures
        without_console(burst_write_dbg_head(saddr, maddr)) == address_for_write(saddr) + seq![
            wait_set(Reg::I2c1Sr1, I2C_SR1_TXE),
            send_byte(maddr),
        ],
{
    broadcast use
        lemma_without_console_concat,
        lemma_without_console_single,
        lemma_without_console_tx_all,
    ;

    lemma_without_console_pair(send_byte(write_address(saddr)), BusOp::Sample { reg: Reg::I2c1Sr1 });
    assert(without_console(burst_write_dbg_head(saddr, maddr)) =~= address_for_write(saddr)
        + seq![wait_set(Reg::I2c1Sr1, I2C_SR1_TXE), send_byte(maddr)]);
}

proof fn lemma_burst_write_dbg_tail_same_bus()
    ensures
        without_console(burst_write_dbg_tail()) == seq![
            wait_set(Reg::I2c1Sr1, I2C_SR1_BTF),
            set_bit(Reg::I2c1Cr1, I2C_CR1_STOP),
        ],
{
    broadcast use
        lemma_without_console_concat,
        lemma_without_console_single,
        lemma_without_console_tx_all,
    ;

    assert(without_console(burst_write_dbg_tail()) =~= seq![
        wait_set(Reg::I2c1Sr1, I2C_SR1_BTF),
        set_bit(Reg::I2c1Cr1, I2C_CR1_STOP),
    ]);
}

/// The reporting burst write performs the same steps as the plain one, in
/// the same order, besides its console output (which includes one read of
/// status register 1 right after the address byte): it writes the same
/// bytes to the I2C data register and receives nothing.
#[verifier::rlimit(60)]
pub proof fn lemma_burst_write_dbg_same_bus(saddr: u8, maddr: u8, data: Seq<u8>)
    ensures
        without_console(burst_write_dbg_plan(saddr, maddr, data)) == burst_write_plan(
            saddr,
            maddr,
            data,
        ),
        writes_to(burst_write_dbg_plan(saddr, maddr, data), Reg::I2c1Dr) == writes_to(
            burst_write_plan(saddr, maddr, data),
            Reg::I2c1Dr,
        ),
        receives_from(burst_write_dbg_plan(saddr, maddr, data), Reg::I2c1Dr) == receives_from(
            burst_write_plan(saddr, maddr, data),
            Reg::I2c1Dr,
        ),
{
    broadcast use
        lemma_without_console_concat,
        lemma_without_console_single,
        lemma_without_console_tx_all,
    ;

    lemma_burst_write_dbg_head_same_bus(saddr, maddr);
    lemma_burst_write_dbg_tail_same_bus();
    lemma_tx_data_dbg_same_bus(data);
    assert(without_console(burst_write_dbg_plan(saddr, maddr, data)) =~= burst_write_plan(
        saddr,
        maddr,
        data,
    ));
    lemma_without_console_keeps(burst_write_dbg_plan(saddr, maddr, data), Reg::I2c1Dr);
}

proof fn lemma_rx_acked_shape(k: nat)
    ensures
        rx_acked(k).len() == 2 * k,
        forall|j: int|
            0 <= j < 2 * k ==> #[trigger] rx_acked(k)[j] == if j % 2 == 0 {
                BusOp::WaitSet { reg: Reg::I2c1Sr1, mask: 0x40 }
            } else {
                BusOp::Receive { reg: Reg::I2c1Dr }
            },
    decreases k,
{
    crate::bus::lemma_bit_constants();
    if k > 0 {
        lemma_rx_acked_shape((k - 1) as nat);
        let prev = rx_acked((k - 1) as nat);
        let tail = seq![wait_set(Reg::I2c1Sr1, I2C_SR1_RXNE), BusOp::Receive { reg: Reg::I2c1Dr }];
        assert forall|j: int| 0 <= j < 2 * k implies #[trigger] rx_acked(k)[j] == if j % 2 == 0 {
            BusOp::WaitSet { reg: Reg::I2c1Sr1, mask: 0x40 }
        } else {
            BusOp::Receive { reg: Reg::I2c1Dr }
        } by {
            if j < 2 * (k - 1) {
                assert((prev + tail)[j] == prev[j]);
            } else {
                assert((prev + tail)[j] == tail[j - 2 * (k - 1)]);
            }
        }
    }
}

/// The I2C read protocol of a plan `p`, for register contents `regs`
/// before it: each byte is taken from the data register right after RXNE
/// (bit 6 of SR1) was seen set; at each byte the acknowledge bit (bit 10 of
/// CR1) is set exactly when the byte is not the plan's last step, so every
/// byte but the last is acknowledged; and at the last byte a stop (bit 9 of
/// CR1) has been requested.
pub open spec fn follows_read_protocol(regs: spec_fn(Reg) -> u32, p: Seq<BusOp>) -> bool {
    forall|i: int|
        0 <= i < p.len() && #[trigger] p[i] == (BusOp::Receive { reg: Reg::I2c1Dr }) ==> {
            &&& i >= 1
            &&& p[i - 1] == (BusOp::WaitSet { reg: Reg::I2c1Sr1, mask: 0x40 })
            &&& (run_plan(regs, p.take(i))(Reg::I2c1Cr1) & 0x400 != 0) <==> i < p.len() - 1
            &&& i == p.len() - 1 ==> run_plan(regs, p.take(i))(Reg::I2c1Cr1) & 0x200 != 0
        }
}

/// A burst read of any length, from any register contents, follows the
/// read protocol: bytes are taken only once RXNE is set, all but the last
/// are acknowledged, and the last is refused with a stop requested.
pub proof fn lemma_burst_read_protocol(regs: spec_fn(Reg) -> u32, saddr: u8, maddr: u8, n: nat)
    ensures
        follows_read_protocol(regs, burst_read_plan(saddr, maddr, n)),
{
    let h = burst_read_plan(saddr, maddr, 0);
    let p = burst_read_plan(saddr, maddr, n);
    assert(p =~= h + rx_data(n));
    lemma_read_header(saddr, maddr);
    lemma_no_receive(h, Reg::I2c1Dr);
    crate::bus::lemma_bit_constants();
    assert(h.len() == 15);
    assert(h.drop_last().push(h[14]) =~= h);
    let c = run_plan(regs, h)(Reg::I2c1Cr1);
    assert(h[14] == set_bit(Reg::I2c1Cr1, I2C_CR1_ACK));
    lemma_ack_stop_bits(run_plan(regs, h.drop_last())(Reg::I2c1Cr1));
    assert(c & 0x400 != 0);
    if n > 0 {
        let k = (n - 1) as nat;
        let rx = rx_acked(k);
        let t = seq![
            clear_bit(Reg::I2c1Cr1, I2C_CR1_ACK),
            set_bit(Reg::I2c1Cr1, I2C_CR1_STOP),
            wait_set(Reg::I2c1Sr1, I2C_SR1_RXNE),
            BusOp::Receive { reg: Reg::I2c1Dr },
        ];
        lemma_rx_acked_shape(k);
        assert(p =~= h + rx + t);
        assert forall|j: int| 0 <= j < rx.len() implies is_passive(#[trigger] rx[j]) by {}
        assert forall|i: int|
            0 <= i < p.len() && #[trigger] p[i] == (BusOp::Receive { reg: Reg::I2c1Dr }) implies {
            &&& i >= 1
            &&& p[i - 1] == (BusOp::WaitSet { reg: Reg::I2c1Sr1, mask: 0x40 })
            &&& (run_plan(regs, p.take(i))(Reg::I2c1Cr1) & 0x400 != 0) <==> i < p.len() - 1
            &&& i == p.len() - 1 ==> run_plan(regs, p.take(i))(Reg::I2c1Cr1) & 0x200 != 0
        } by {
            if i < h.len() {
                assert(p[i] == h[i]);
            } else if i < h.len() + rx.len() {
                let j = i - h.len();
                assert(p[i] == rx[j]);
                assert(j % 2 == 1);
                assert(p[i - 1] == rx[j - 1]);
                let q = rx.take(j);
                assert(p.take(i) =~= h + q);
                assert forall|m: int| 0 <= m < q.len() implies is_passive(#[trigger] q[m]) by {
                    assert(q[m] == rx[m]);
                }
                lemma_run_concat(regs, h, q);
                lemma_passive_run(run_plan(regs, h), q);
            } else {
                let j = i - h.len() - rx.len();
                assert(p[i] == t[j]);
                assert(j == 3);
                assert(p[i - 1] == t[2]);
                assert(1u32 << 10u32 == 1u32 << I2C_CR1_ACK);
                let hr = h + rx;
                let u = t.take(3);
                assert(p.take(i) =~= hr + u);
                lemma_run_concat(regs, h, rx);
                lemma_passive_run(run_plan(regs, h), rx);
                lemma_run_concat(regs, hr, u);
                assert(u =~= Seq::<BusOp>::empty().push(t[0]).push(t[1]).push(t[2]));
                broadcast use lemma_run_push, lemma_run_empty;

                lemma_ack_stop_bits(c);
            }
        }
    }
}

/// A single-byte read, from any register contents, follows the read
/// protocol: its one byte is taken only once RXNE is set, is refused, and
/// has a stop requested.
pub proof fn lemma_byte_read_protocol(regs: spec_fn(Reg) -> u32, saddr: u8, maddr: u8)
    ensures
        follows_read_protocol(regs, byte_read_plan(saddr, maddr)),
{
    broadcast use lemma_run_push, lemma_run_empty;

    let p = byte_read_plan(saddr, maddr);
    crate::bus::lemma_bit_constants();
    assert(p.len() == 17);
    lemma_byte_read_bytes(saddr, maddr);
    let f = p.take(16);
    assert(p =~= f.push(p[16]));
    assert(f.push(p[16]).drop_last() =~= f);
    assert(receives_from(f, Reg::I2c1Dr) == 0);
    lemma_no_receive(f, Reg::I2c1Dr);
    let e = p.take(12);
    assert(f =~= e.push(p[12]).push(p[13]).push(p[14]).push(p[15]));
    lemma_ack_stop_bits(run_plan(regs, e)(Reg::I2c1Cr1));
    assert forall|i: int|
        0 <= i < p.len() && #[trigger] p[i] == (BusOp::Receive { reg: Reg::I2c1Dr }) implies {
        &&& i >= 1
        &&& p[i - 1] == (BusOp::WaitSet { reg: Reg::I2c1Sr1, mask: 0x40 })
        &&& (run_plan(regs, p.take(i))(Reg::I2c1Cr1) & 0x400 != 0) <==> i < p.len() - 1
        &&& i == p.len() - 1 ==> run_plan(regs, p.take(i))(Reg::I2c1Cr1) & 0x200 != 0
    } by {
        if i < 16 {
            assert(p[i] == f[i]);
        }
    }
}

/// The reporting single-byte read, with its console steps left out,
/// follows the read protocol too.
pub proof fn lemma_byte_read_dbg_protocol(regs: spec_fn(Reg) -> u32, saddr: u8, maddr: u8)
    ensures
        follows_read_protocol(regs, without_console(byte_read_dbg_plan(saddr, maddr))),
{
    lemma_byte_read_dbg_same_bus(saddr, maddr);
    lemma_byte_read_protocol(regs, saddr, maddr);
}

} // verus!

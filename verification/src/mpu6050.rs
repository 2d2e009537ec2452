//! MPU6050 accelerometer and gyroscope on I2C1.
use vstd::prelude::*;
use crate::bus::BusOp;
use crate::fmt::{hex_digits, hex_text};
use crate::bus::{
    Reg, receives_from, writes_to, without_console, lemma_without_console_concat,
    lemma_without_console_keeps, lemma_writes_to_concat, lemma_receives_from_concat,
};
use crate::i2c::{
    as_words, burst_write_dbg_plan, burst_write_plan, i2c1_burst_write, i2c1_burst_write_dbg,
    say, write_address, lemma_burst_write_bytes, lemma_burst_write_dbg_same_bus,
};
use crate::uart::{crlf, print_ops, tx_all, uart2_send, lemma_without_console_tx_all};

verus! {

/// MPU6050 I2C address when AD0 = GND.
pub const MPU6050_ADDR: u8 = 0x68;

/// Accelerometer output registers.
pub const ACCEL_XOUT_H: u8 = 0x3B;
pub const ACCEL_XOUT_L: u8 = 0x3C;
pub const ACCEL_YOUT_H: u8 = 0x3D;
pub const ACCEL_YOUT_L: u8 = 0x3E;
pub const ACCEL_ZOUT_H: u8 = 0x3F;
pub const ACCEL_ZOUT_L: u8 = 0x40;

/// Gyroscope output registers.
pub const GYRO_XOUT_H: u8 = 0x43;
pub const GYRO_XOUT_L: u8 = 0x44;
pub const GYRO_YOUT_H: u8 = 0x45;
pub const GYRO_YOUT_L: u8 = 0x46;
pub const GYRO_ZOUT_H: u8 = 0x47;
pub const GYRO_ZOUT_L: u8 = 0x48;

/// Configuration registers.
pub const GYRO_CONFIG: u8 = 0x1B;
pub const ACCEL_CONFIG: u8 = 0x1C;
pub const PWR_MGMT_1: u8 = 0x6B;

/// The range setting written to both configuration registers: bits 4:3 =
/// 01, that is +-4 g and +-500 degrees per second.
pub const RANGE_CFG: u8 = 0x08;

fn range_cfg() -> (cfg: u8)
    ensures
        cfg == RANGE_CFG,
{
    let cfg: u8 = (1 << 3) | (0 << 4);
    assert((1u8 << 3u8) | (0u8 << 4u8) == 8u8) by (bit_vector);
    cfg
}

/// The plan of [`mpu6050_init`].
pub open spec fn mpu6050_init_plan() -> Seq<BusOp> {
    burst_write_plan(MPU6050_ADDR, PWR_MGMT_1, seq![0u8]) + burst_write_plan(
        MPU6050_ADDR,
        ACCEL_CONFIG,
        seq![RANGE_CFG],
    ) + burst_write_plan(MPU6050_ADDR, GYRO_CONFIG, seq![RANGE_CFG])
}

/// Wake the MPU6050 and set its accelerometer and gyroscope ranges.
pub fn mpu6050_init() -> (ops: Vec<BusOp>)
    ensures
        ops@ == mpu6050_init_plan(),
{
    let wake_data: u8 = 0x00;
    let wake = vec![wake_data];
    let mut ops = i2c1_burst_write(MPU6050_ADDR, 0x6B, 1, wake.as_slice());
    assert(wake@.take(1) =~= seq![0u8]);
    let cfg = range_cfg();
    let cfg_buf = vec![cfg];
    assert(cfg_buf@.take(1) =~= seq![RANGE_CFG]);
    let mut accel = i2c1_burst_write(MPU6050_ADDR, ACCEL_CONFIG, 1, cfg_buf.as_slice());
    ops.append(&mut accel);
    let mut gyro = i2c1_burst_write(MPU6050_ADDR, GYRO_CONFIG, 1, cfg_buf.as_slice());
    ops.append(&mut gyro);
    ops
}

/// The operations that send `bytes` on USART2.
pub open spec fn send_ops(bytes: Seq<u8>) -> Seq<BusOp> {
    tx_all(crlf(bytes))
}

/// The plan of [`mpu6050_init_dbg`].
pub open spec fn mpu6050_init_dbg_plan() -> Seq<BusOp> {
    print_ops("mpu: starting init\n") + print_ops("mpu: sending wake command to 0x")
        + send_ops(hex_text(MPU6050_ADDR as u32, 2, true)) + print_ops("\n") + print_ops(
        "Sending address byte: ",
    ) + send_ops(hex_text(0xD0, 0, false)) + print_ops("\n") + burst_write_dbg_plan(
        MPU6050_ADDR,
        PWR_MGMT_1,
        seq![0u8],
    ) + print_ops("mpu: wake ok\n") + print_ops("mpu: sending accel config 0x") + send_ops(
        hex_text(RANGE_CFG as u32, 2, true),
    ) + print_ops("\n") + burst_write_dbg_plan(MPU6050_ADDR, ACCEL_CONFIG, seq![RANGE_CFG])
        + print_ops("mpu: accel config ok\n") + print_ops("mpu: sending gyro config\n")
        + burst_write_dbg_plan(MPU6050_ADDR, GYRO_CONFIG, seq![RANGE_CFG]) + print_ops(
        "mpu: gyro config ok\n",
    ) + print_ops("mpu: init complete\n")
}

/// [`mpu6050_init`] reporting each step on USART2.
pub fn mpu6050_init_dbg() -> (ops: Vec<BusOp>)
    ensures
        ops@ == mpu6050_init_dbg_plan(),
{
    let mut ops: Vec<BusOp> = Vec::new();
    assert(ops@ =~= Seq::<BusOp>::empty());
    say(&mut ops, "mpu: starting init\n");
    let wake_data: u8 = 0x00;
    say(&mut ops, "mpu: sending wake command to 0x");
    let mut h = uart2_send(hex_digits(MPU6050_ADDR as u32, 2, true).as_slice());
    ops.append(&mut h);
    say(&mut ops, "\n");
    say(&mut ops, "Sending address byte: ");
    let shifted: u8 = MPU6050_ADDR << 1;
    assert(0x68u8 << 1u8 == 0xD0u8) by (bit_vector);
    let mut h = uart2_send(hex_digits(shifted as u32, 0, false).as_slice());
    ops.append(&mut h);
    say(&mut ops, "\n");
    let wake = vec![wake_data];
    assert(wake@.take(1) =~= seq![0u8]);
    let mut w = i2c1_burst_write_dbg(MPU6050_ADDR, 0x6B, 1, wake.as_slice());
    ops.append(&mut w);
    say(&mut ops, "mpu: wake ok\n");
    let cfg = range_cfg();
    say(&mut ops, "mpu: sending accel config 0x");
    let mut h = uart2_send(hex_digits(cfg as u32, 2, true).as_slice());
    ops.append(&mut h);
    say(&mut ops, "\n");
    let cfg_buf = vec![cfg];
    assert(cfg_buf@.take(1) =~= seq![RANGE_CFG]);
    let mut a = i2c1_burst_write_dbg(MPU6050_ADDR, ACCEL_CONFIG, 1, cfg_buf.as_slice());
    ops.append(&mut a);
    say(&mut ops, "mpu: accel config ok\n");
    say(&mut ops, "mpu: sending gyro config\n");
    let mut g = i2c1_burst_write_dbg(MPU6050_ADDR, GYRO_CONFIG, 1, cfg_buf.as_slice());
    ops.append(&mut g);
    say(&mut ops, "mpu: gyro config ok\n");
    say(&mut ops, "mpu: init complete\n");
    ops
}

/// [`mpu6050_init`] puts on the I2C bus, in three transactions, the wake
/// command and the two range settings: `D0 6B 00`, `D0 1C 08`, `D0 1B 08`,
/// and receives nothing.
pub proof fn lemma_mpu6050_init_bytes()
    ensures
        writes_to(mpu6050_init_plan(), Reg::I2c1Dr) == seq![
            0xD0u32,
            0x6B,
            0x00,
            0xD0,
            0x1C,
            0x08,
            0xD0,
            0x1B,
            0x08,
        ],
        receives_from(mpu6050_init_plan(), Reg::I2c1Dr) == 0,
{
    let a = burst_write_plan(MPU6050_ADDR, PWR_MGMT_1, seq![0u8]);
    let b = burst_write_plan(MPU6050_ADDR, ACCEL_CONFIG, seq![RANGE_CFG]);
    let c = burst_write_plan(MPU6050_ADDR, GYRO_CONFIG, seq![RANGE_CFG]);
    lemma_burst_write_bytes(MPU6050_ADDR, PWR_MGMT_1, seq![0u8]);
    lemma_burst_write_bytes(MPU6050_ADDR, ACCEL_CONFIG, seq![RANGE_CFG]);
    lemma_burst_write_bytes(MPU6050_ADDR, GYRO_CONFIG, seq![RANGE_CFG]);
    lemma_writes_to_concat(a, b, Reg::I2c1Dr);
    lemma_writes_to_concat(a + b, c, Reg::I2c1Dr);
    lemma_receives_from_concat(a, b, Reg::I2c1Dr);
    lemma_receives_from_concat(a + b, c, Reg::I2c1Dr);
    assert(write_address(MPU6050_ADDR) == 0xD0);
    assert(as_words(seq![0u8]) =~= seq![0u32]);
    assert(as_words(seq![RANGE_CFG]) =~= seq![8u32]);
    assert(writes_to(mpu6050_init_plan(), Reg::I2c1Dr) =~= seq![
        0xD0u32,
        0x6B,
        0x00,
        0xD0,
        0x1C,
        0x08,
        0xD0,
        0x1B,
        0x08,
    ]);
}

/// The reporting MPU6050 set-up performs the same steps as the plain one,
/// in the same order, besides its console output: the same bytes go to the
/// I2C data register and nothing is received.
#[verifier::rlimit(60)]
pub proof fn lemma_mpu6050_init_dbg_same_bus()
    ensures
        without_console(mpu6050_init_dbg_plan()) == mpu6050_init_plan(),
        writes_to(mpu6050_init_dbg_plan(), Reg::I2c1Dr) == writes_to(
            mpu6050_init_plan(),
            Reg::I2c1Dr,
        ),
        receives_from(mpu6050_init_dbg_plan(), Reg::I2c1Dr) == receives_from(
            mpu6050_init_plan(),
            Reg::I2c1Dr,
        ),
{
    broadcast use lemma_without_console_concat, lemma_without_console_tx_all;

    lemma_burst_write_dbg_same_bus(MPU6050_ADDR, PWR_MGMT_1, seq![0u8]);
    lemma_burst_write_dbg_same_bus(MPU6050_ADDR, ACCEL_CONFIG, seq![RANGE_CFG]);
    lemma_burst_write_dbg_same_bus(MPU6050_ADDR, GYRO_CONFIG, seq![RANGE_CFG]);
    assert(without_console(mpu6050_init_dbg_plan()) =~= mpu6050_init_plan());
    lemma_without_console_keeps(mpu6050_init_dbg_plan(), Reg::I2c1Dr);
}

/// The signed 16-bit value whose big-endian bytes are `hi`, `lo`
/// (two's complement).
pub open spec fn be_i16(hi: u8, lo: u8) -> int {
    let u = hi * 256 + lo;
    if u >= 0x8000 {
        u - 0x1_0000
    } else {
        u
    }
}

/// `i16::from_be_bytes([hi, lo])`.
pub fn i16_from_be_bytes(hi: u8, lo: u8) -> (v: i16)
    ensures
        v == be_i16(hi, lo),
{
    if hi < 128 {
        (hi as i16) * 256 + lo as i16
    } else {
        ((hi as i16) - 256) * 256 + lo as i16
    }
}

/// Decoding is a bijection between byte pairs and 16-bit values: the
/// value determines both bytes.
pub proof fn lemma_be_i16_bytes(hi: u8, lo: u8)
    ensures
        -0x8000 <= be_i16(hi, lo) < 0x8000,
        (be_i16(hi, lo) + 0x1_0000) % 0x1_0000 == hi * 256 + lo,
        ((be_i16(hi, lo) + 0x1_0000) % 0x1_0000) / 256 == hi,
        ((be_i16(hi, lo) + 0x1_0000) % 0x1_0000) % 256 == lo,
{
}

/// One sample of the MPU6050 as the sensor reports it.
#[derive(Clone, Copy, Debug, PartialEq, Eq, Structural)]
pub struct ImuSample {
    pub accel_x: i16,
    pub accel_y: i16,
    pub accel_z: i16,
    pub gyro_x: i16,
    pub gyro_y: i16,
    pub gyro_z: i16,
}

/// Decode the 14 bytes read from `ACCEL_XOUT_H` on: three big-endian
/// accelerometer words, the temperature word (skipped) and three
/// big-endian gyroscope words.
pub fn decode_imu_frame(raw: &[u8; 14]) -> (s: ImuSample)
    ensures
        s.accel_x == be_i16(raw@[0], raw@[1]),
        s.accel_y == be_i16(raw@[2], raw@[3]),
        s.accel_z == be_i16(raw@[4], raw@[5]),
        s.gyro_x == be_i16(raw@[8], raw@[9]),
        s.gyro_y == be_i16(raw@[10], raw@[11]),
        s.gyro_z == be_i16(raw@[12], raw@[13]),
{
    ImuSample {
        accel_x: i16_from_be_bytes(raw[0], raw[1]),
        accel_y: i16_from_be_bytes(raw[2], raw[3]),
        accel_z: i16_from_be_bytes(raw[4], raw[5]),
        gyro_x: i16_from_be_bytes(raw[8], raw[9]),
        gyro_y: i16_from_be_bytes(raw[10], raw[11]),
        gyro_z: i16_from_be_bytes(raw[12], raw[13]),
    }
}

} // verus!

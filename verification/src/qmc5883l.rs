//! QMC5883L magnetometer on I2C1.
use vstd::prelude::*;
use crate::bus::BusOp;
use crate::i2c::{burst_write_plan, i2c1_burst_write};
use crate::mpu6050::{be_i16, i16_from_be_bytes};

verus! {

/// I2C address of the magnetometer.
pub const QMC5883_ADDR: u8 = 0x2C;

/// Registers.
pub const QMC5883_CHIP_ID: u8 = 0x00;
pub const QMC5883_XOUT_L: u8 = 0x01;
pub const QMC5883_XOUT_H: u8 = 0x02;
pub const QMC5883_YOUT_L: u8 = 0x03;
pub const QMC5883_YOUT_H: u8 = 0x04;
pub const QMC5883_ZOUT_L: u8 = 0x05;
pub const QMC5883_ZOUT_H: u8 = 0x06;
pub const QMC5883_STATUS: u8 = 0x09;
pub const QMC5883_CTRL1: u8 = 0x0A;
pub const QMC5883_CTRL2: u8 = 0x0B;

/// Status bits.
pub const QMC5883_DRDY: u8 = 1 << 0;
pub const QMC5883_OVFL: u8 = 1 << 1;

/// Control register 1: mode.
pub const QMC5883_MODE_SUSPEND: u8 = 0x00 << 0;
pub const QMC5883_MODE_NORMAL: u8 = 0x01 << 0;
pub const QMC5883_MODE_SINGLE: u8 = 0x02 << 0;
pub const QMC5883_MODE_CONTINUOUS: u8 = 0x03 << 0;

/// Control register 1: output data rate.
pub const QMC5883_ODR_10HZ: u8 = 0x00 << 2;
pub const QMC5883_ODR_50HZ: u8 = 0x01 << 2;
pub const QMC5883_ODR_100HZ: u8 = 0x02 << 2;
pub const QMC5883_ODR_200HZ: u8 = 0x03 << 2;

/// Control register 1: first over-sampling ratio.
pub const QMC5883_OSR1_8: u8 = 0x00 << 4;
pub const QMC5883_OSR1_4: u8 = 0x01 << 4;
pub const QMC5883_OSR1_2: u8 = 0x02 << 4;
pub const QMC5883_OSR1_1: u8 = 0x03 << 4;

/// Control register 1: second over-sampling ratio.
pub const QMC5883_OSR2_1: u8 = 0x00 << 6;
pub const QMC5883_OSR2_2: u8 = 0x01 << 6;
pub const QMC5883_OSR2_4: u8 = 0x02 << 6;
pub const QMC5883_OSR2_8: u8 = 0x03 << 6;

/// Control register 2 bits.
pub const QMC5883_SOFT_RST: u8 = 1 << 7;
pub const QMC5883_SELF_TEST: u8 = 1 << 6;

/// Control register 2: field range.
pub const QMC5883_RNG_30G: u8 = 0x00 << 2;
pub const QMC5883_RNG_12G: u8 = 0x01 << 2;
pub const QMC5883_RNG_8G: u8 = 0x02 << 2;
pub const QMC5883_RNG_2G: u8 = 0x03 << 2;

/// Control register 2: set/reset.
pub const QMC5883_SETRESET_ON: u8 = 0x00 << 0;
pub const QMC5883_SET_ONLY_ON: u8 = 0x01 << 0;
pub const QMC5883_SETRESET_OFF: u8 = 0x02 << 0;

/// Control register 2 after the reset: range 8 gauss (10), set/reset on (00).
pub const CTRL2_CFG: u8 = 0x08;

/// Control register 1: OSR2 = 11, OSR1 = 11, ODR = 10 (100 Hz),
/// MODE = 11 (continuous).
pub const CTRL1_CFG: u8 = 0xFB;

/// Reset the magnetometer, then set its range and start continuous
/// measurement at 100 Hz.
pub fn qmc5883_init() -> (ops: Vec<BusOp>)
    ensures
        ops@ == burst_write_plan(QMC5883_ADDR, QMC5883_CTRL2, seq![QMC5883_SOFT_RST])
            + burst_write_plan(QMC5883_ADDR, QMC5883_CTRL2, seq![CTRL2_CFG]) + burst_write_plan(
            QMC5883_ADDR,
            QMC5883_CTRL1,
            seq![CTRL1_CFG],
        ),
{
    assert(1u8 << 7u8 == 0x80u8) by (bit_vector);
    let rst = vec![QMC5883_SOFT_RST];
    assert(rst@.take(1) =~= seq![QMC5883_SOFT_RST]);
    let mut ops = i2c1_burst_write(QMC5883_ADDR, QMC5883_CTRL2, 1, rst.as_slice());
    let mut cfg: u8;
    cfg = (2 << 2) | (0 << 0);
    assert((2u8 << 2u8) | (0u8 << 0u8) == 0x08u8) by (bit_vector);
    let ctrl2 = vec![cfg];
    assert(ctrl2@.take(1) =~= seq![CTRL2_CFG]);
    let mut more = i2c1_burst_write(QMC5883_ADDR, QMC5883_CTRL2, 1, ctrl2.as_slice());
    ops.append(&mut more);
    cfg = (3 << 6) | (3 << 4) | (2 << 2) | (3 << 0);
    assert((3u8 << 6u8) | (3u8 << 4u8) | (2u8 << 2u8) | (3u8 << 0u8) == 0xFBu8) by (bit_vector);
    let ctrl1 = vec![cfg];
    assert(ctrl1@.take(1) =~= seq![CTRL1_CFG]);
    let mut last = i2c1_burst_write(QMC5883_ADDR, QMC5883_CTRL1, 1, ctrl1.as_slice());
    ops.append(&mut last);
    ops
}

/// Decode the 6 bytes read from `QMC5883_XOUT_L` on: three little-endian
/// signed words, X, Y and Z.
pub fn decode_mag_frame(raw: &[u8; 6]) -> (m: (i16, i16, i16))
    ensures
        m.0 == be_i16(raw@[1], raw@[0]),
        m.1 == be_i16(raw@[3], raw@[2]),
        m.2 == be_i16(raw@[5], raw@[4]),
{
    (
        i16_from_be_bytes(raw[1], raw[0]),
        i16_from_be_bytes(raw[3], raw[2]),
        i16_from_be_bytes(raw[5], raw[4]),
    )
}

} // verus!

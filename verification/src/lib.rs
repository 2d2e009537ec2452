//! Verified logic for a STM32F411 Nucleo board: register programming
//! plans for the on-chip peripherals, the I2C transaction sequences that
//! talk to an MPU6050 and a QMC5883L, UART framing and baud rate arithmetic,
//! sensor frame decoding and a quadrature encoder counter.
pub mod bus;
pub mod button_interrupt;
pub mod fmt;
pub mod fpu;
pub mod gy37y3530;
pub mod i2c;
pub mod mpu6050;
pub mod qmc5883l;
pub mod quaternion_ekf;
pub mod tim2;
pub mod uart;
pub mod uart2_dma;

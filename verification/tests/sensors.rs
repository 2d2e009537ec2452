use stm32f411_nucleo::button_interrupt::{exti15_10, led_off, led_on, pc13_exti_init};
use stm32f411_nucleo::bus::{BusOp, Irq, Reg};
use stm32f411_nucleo::fmt::hex_digits;
use stm32f411_nucleo::fpu::{fpu_disable, fpu_init};
use stm32f411_nucleo::mpu6050::{decode_imu_frame, i16_from_be_bytes};
use stm32f411_nucleo::qmc5883l::decode_mag_frame;
use stm32f411_nucleo::quaternion_ekf::{
    build_error_message, imu_build_error_message, read_data_into, ImuBuildError, unwrap_EKF_result, EkfBuilderError, Imu9DofMeasure,
};
use stm32f411_nucleo::tim2::tim2_us_init;

#[test]
fn be_bytes_match_std() {
    for (hi, lo) in [(0u8, 0u8), (0x7F, 0xFF), (0x80, 0x00), (0xFF, 0xFF), (0x12, 0x34), (0xAB, 0xCD)] {
        assert_eq!(i16_from_be_bytes(hi, lo), i16::from_be_bytes([hi, lo]));
    }
}

#[test]
fn imu_frame_skips_temperature() {
    let raw = [0x00, 0x01, 0xFF, 0xFF, 0x80, 0x00, 0x12, 0x34, 0x7F, 0xFF, 0x00, 0x10, 0xFE, 0x00];
    let s = decode_imu_frame(&raw);
    assert_eq!((s.accel_x, s.accel_y, s.accel_z), (1, -1, -32768));
    assert_eq!((s.gyro_x, s.gyro_y, s.gyro_z), (32767, 16, -512));
}

#[test]
fn mag_frame_is_little_endian() {
    let raw = [0x01, 0x00, 0x00, 0x80, 0xFF, 0xFF];
    assert_eq!(decode_mag_frame(&raw), (1, -32768, -1));
}

#[test]
fn hex_formatting() {
    assert_eq!(hex_digits(0x68, 2, true), b"68".to_vec());
    assert_eq!(hex_digits(0xD0, 0, false), b"d0".to_vec());
    assert_eq!(hex_digits(8, 2, true), b"08".to_vec());
    assert_eq!(hex_digits(0x3, 4, false), b"0003".to_vec());
    assert_eq!(hex_digits(0xABCDE, 4, false), b"abcde".to_vec());
    assert_eq!(hex_digits(0xABCDE, 4, true), b"ABCDE".to_vec());
    assert_eq!(hex_digits(0, 0, false), b"0".to_vec());
    assert_eq!(hex_digits(u32::MAX, 0, false), b"ffffffff".to_vec());
    for v in [0u32, 1, 15, 16, 255, 4096, 0xdead_beef] {
        assert_eq!(hex_digits(v, 4, false), format!("{:04x}", v).into_bytes());
        assert_eq!(hex_digits(v, 2, true), format!("{:02X}", v).into_bytes());
    }
}

#[test]
fn button_handler_clears_and_reports() {
    let ops = exti15_10(1 << 13, "button was pressed\n");
    assert_eq!(ops[0], BusOp::Write { reg: Reg::ExtiPr, value: 1 << 13 });
    assert_eq!(ops.len(), 1 + 2 * 20);
    assert!(exti15_10(1 << 12, "button was pressed\n").is_empty());
}

#[test]
fn exti_init_masks_interrupts_around_setup() {
    let ops = pc13_exti_init();
    assert_eq!(ops[0], BusOp::InterruptsOff);
    assert_eq!(ops[4], BusOp::Write { reg: Reg::SyscfgExticr4, value: 0x20 });
    assert_eq!(ops[7], BusOp::Unmask { irq: Irq::Exti15_10 });
    assert_eq!(*ops.last().unwrap(), BusOp::InterruptsOn);
}

#[test]
fn led_uses_bsrr_halves() {
    assert_eq!(led_on(), vec![BusOp::Write { reg: Reg::GpioaBsrr, value: 1 << 5 }]);
    assert_eq!(led_off(), vec![BusOp::Write { reg: Reg::GpioaBsrr, value: 1 << 21 }]);
}

#[test]
fn fpu_access_bits() {
    assert_eq!(fpu_init()[0], BusOp::Write { reg: Reg::FpuCpacr, value: 0x00F0_0000 });
    assert_eq!(fpu_disable(), vec![BusOp::Write { reg: Reg::FpuCpacr, value: 0 }]);
}

#[test]
fn timer_counts_microseconds() {
    let ops = tim2_us_init();
    assert_eq!(ops[1], BusOp::Write { reg: Reg::Tim2Psc, value: 15 });
    assert_eq!(ops[2], BusOp::Write { reg: Reg::Tim2Arr, value: 0xFFFF_FFFF });
}

#[test]
fn measurement_takes_all_nine_readings() {
    let mut m = Imu9DofMeasure::default();
    read_data_into(&mut m, 1, 2, 3, 4, 5, 6, 7, 8, 9);
    assert_eq!((m.raw_accel_x, m.raw_accel_y, m.raw_accel_z), (1, 2, 3));
    assert_eq!((m.raw_gyro_x, m.raw_gyro_y, m.raw_gyro_z), (4, 5, 6));
    assert_eq!((m.raw_mag_x, m.raw_mag_y, m.raw_mag_z), (7, 8, 9));
}

#[test]
fn filter_errors_are_reported() {
    assert_eq!(unwrap_EKF_result::<u32>(Ok(7)), Ok(7));
    assert_eq!(build_error_message(EkfBuilderError::MissingTiming), "missing timing\n");
    let ops = unwrap_EKF_result::<u32>(Err(EkfBuilderError::MissingStateX)).unwrap_err();
    let text: Vec<u8> = ops
        .iter()
        .filter_map(|op| match op {
            BusOp::Write { reg: Reg::Usart2Dr, value } => Some(*value as u8),
            _ => None,
        })
        .collect();
    assert_eq!(text, b"missing state x\r\n".to_vec());
}

#[test]
fn measurement_builder_errors_are_named() {
    assert_eq!(imu_build_error_message(ImuBuildError::MissingSoftIron), "missing soft iron!\n");
    assert_eq!(imu_build_error_message(ImuBuildError::MissingHardIron), "missing hard_iron!\n");
    assert_eq!(imu_build_error_message(ImuBuildError::MissingGyroOffset), "missing gyro offset!\n");
    assert_eq!(build_error_message(EkfBuilderError::MissingControlU), "missing control u\n");
}

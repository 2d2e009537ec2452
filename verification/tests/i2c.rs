use stm32f411_nucleo::bus::{BusOp, Reg};
use stm32f411_nucleo::i2c::{
    i2c1_burst_read, i2c1_burst_write, i2c1_burst_write_dbg, i2c1_byte_read, i2c1_byte_read_dbg,
    i2c1_init, i2c_read_address, i2c_write_address,
};
use stm32f411_nucleo::mpu6050::{mpu6050_init, mpu6050_init_dbg, MPU6050_ADDR};
use stm32f411_nucleo::qmc5883l::{qmc5883_init, QMC5883_ADDR};

fn bus_bytes(ops: &[BusOp]) -> Vec<u8> {
    ops.iter()
        .filter_map(|op| match op {
            BusOp::Write { reg: Reg::I2c1Dr, value } => Some(*value as u8),
            _ => None,
        })
        .collect()
}

fn receives(ops: &[BusOp]) -> usize {
    ops.iter().filter(|op| **op == BusOp::Receive { reg: Reg::I2c1Dr }).count()
}

fn console(ops: &[BusOp]) -> String {
    let b: Vec<u8> = ops
        .iter()
        .filter_map(|op| match op {
            BusOp::Write { reg: Reg::Usart2Dr, value } => Some(*value as u8),
            _ => None,
        })
        .collect();
    String::from_utf8(b).unwrap()
}

const ACK_OFF: BusOp = BusOp::Modify { reg: Reg::I2c1Cr1, mask: 1 << 10, value: 0 };
const STOP: BusOp = BusOp::Modify { reg: Reg::I2c1Cr1, mask: 1 << 9, value: 1 << 9 };

#[test]
fn address_bytes() {
    assert_eq!(i2c_write_address(0x68), 0xD0);
    assert_eq!(i2c_read_address(0x68), 0xD1);
    assert_eq!(i2c_write_address(0x2C), 0x58);
    assert_eq!(i2c_write_address(0xFF), 0xFE);
    assert_eq!(i2c_read_address(0x80), 0x01);
}

#[test]
fn burst_write_sends_address_register_and_data() {
    let ops = i2c1_burst_write(0x68, 0x1C, 2, &[8, 9, 10]);
    assert_eq!(bus_bytes(&ops), vec![0xD0, 0x1C, 8, 9]);
    assert_eq!(receives(&ops), 0);
    assert_eq!(*ops.last().unwrap(), STOP);
    assert_eq!(ops[0], BusOp::WaitClear { reg: Reg::I2c1Sr2, mask: 1 << 1 });
}

#[test]
fn burst_write_of_nothing_sends_register_only() {
    let ops = i2c1_burst_write(0x68, 0x75, 0, &[]);
    assert_eq!(bus_bytes(&ops), vec![0xD0, 0x75]);
}

#[test]
fn burst_read_receives_n_bytes() {
    let ops = i2c1_burst_read(0x68, 0x3B, 14);
    assert_eq!(bus_bytes(&ops), vec![0xD0, 0x3B, 0xD1]);
    assert_eq!(receives(&ops), 14);
    let n = ops.len();
    assert_eq!(ops[n - 4], ACK_OFF);
    assert_eq!(ops[n - 3], STOP);
    assert_eq!(ops[n - 1], BusOp::Receive { reg: Reg::I2c1Dr });
    assert_eq!(ops.iter().filter(|op| **op == STOP).count(), 1);
}

#[test]
fn burst_read_of_zero_bytes_sends_no_stop() {
    let ops = i2c1_burst_read(0x2C, 0x01, 0);
    assert_eq!(receives(&ops), 0);
    assert!(!ops.contains(&STOP));
}

#[test]
fn byte_read_receives_one_byte() {
    let ops = i2c1_byte_read(0x68, 0x3C);
    assert_eq!(bus_bytes(&ops), vec![0xD0, 0x3C, 0xD1]);
    assert_eq!(receives(&ops), 1);
    assert_eq!(ops.len(), 17);
}

#[test]
fn debug_variants_do_the_same_bus_work() {
    let plain = i2c1_burst_write(0x68, 0x6B, 1, &[0]);
    let dbg = i2c1_burst_write_dbg(0x68, 0x6B, 1, &[0]);
    assert_eq!(bus_bytes(&plain), bus_bytes(&dbg));
    let text = console(&dbg);
    assert!(text.starts_with("0: entering burst write\r\n1: finished checking busy\r\n"));
    assert!(text.ends_with("11: btf is set\r\n12: stop\r\n"));
    assert!(dbg.contains(&BusOp::Sample { reg: Reg::I2c1Sr1 }));
    assert!(dbg.contains(&BusOp::SendSampleHex { digits: 4 }));

    let dbg = i2c1_byte_read_dbg(0x68, 0x3B);
    assert_eq!(bus_bytes(&dbg), vec![0xD0, 0x3B, 0xD1]);
    assert_eq!(receives(&dbg), 1);
    assert!(console(&dbg).ends_with("16: rxne flag is setcmplt: read from dr"));
}

#[test]
fn i2c1_init_sets_standard_mode() {
    let ops = i2c1_init();
    assert_eq!(ops.len(), 16);
    assert_eq!(ops[12], BusOp::Modify { reg: Reg::I2c1Cr2, mask: 0x3F, value: 16 });
    assert_eq!(ops[13], BusOp::Modify { reg: Reg::I2c1Ccr, mask: 0xFFFF_FFFF, value: 80 });
    assert_eq!(ops[14], BusOp::Modify { reg: Reg::I2c1Trise, mask: 0xFFFF_FFFF, value: 17 });
    assert_eq!(ops[7], BusOp::Modify { reg: Reg::GpiobAfrh, mask: 0xF, value: 4 });
    assert_eq!(ops[8], BusOp::Modify { reg: Reg::GpiobAfrh, mask: 0xF0, value: 0x40 });
}

#[test]
fn mpu6050_init_writes_wake_and_ranges() {
    let ops = mpu6050_init();
    assert_eq!(
        bus_bytes(&ops),
        vec![0xD0, 0x6B, 0x00, 0xD0, 0x1C, 0x08, 0xD0, 0x1B, 0x08]
    );
    assert_eq!(MPU6050_ADDR, 0x68);
}

#[test]
fn mpu6050_init_dbg_reports_addresses() {
    let ops = mpu6050_init_dbg();
    assert_eq!(
        bus_bytes(&ops),
        vec![0xD0, 0x6B, 0x00, 0xD0, 0x1C, 0x08, 0xD0, 0x1B, 0x08]
    );
    let text = console(&ops);
    assert!(text.starts_with(
        "mpu: starting init\r\nmpu: sending wake command to 0x68\r\nSending address byte: d0\r\n"
    ));
    assert!(text.contains("mpu: sending accel config 0x08\r\n"));
    assert!(text.ends_with("mpu: gyro config ok\r\nmpu: init complete\r\n"));
}

#[test]
fn qmc5883_init_resets_then_configures() {
    let ops = qmc5883_init();
    assert_eq!(
        bus_bytes(&ops),
        vec![0x58, 0x0B, 0x80, 0x58, 0x0B, 0x08, 0x58, 0x0A, 0xFB]
    );
    assert_eq!(QMC5883_ADDR, 0x2C);
}

fn without_console(ops: &[BusOp]) -> Vec<BusOp> {
    ops.iter()
        .copied()
        .filter(|op| {
            !matches!(
                op,
                BusOp::WaitSet { reg: Reg::Usart2Sr, .. }
                    | BusOp::Write { reg: Reg::Usart2Dr, .. }
                    | BusOp::Sample { .. }
                    | BusOp::SendSampleHex { .. }
            )
        })
        .collect()
}

#[test]
fn reporting_variants_do_the_same_steps() {
    assert_eq!(without_console(&i2c1_byte_read_dbg(0x2C, 0x09)), i2c1_byte_read(0x2C, 0x09));
    let data = [1u8, 2, 3, 4];
    assert_eq!(
        without_console(&i2c1_burst_write_dbg(0x68, 0x10, 3, &data)),
        i2c1_burst_write(0x68, 0x10, 3, &data)
    );
    assert_eq!(without_console(&mpu6050_init_dbg()), mpu6050_init());
}

use stm32f411_nucleo::bus::{apply_modify, BusOp, Reg};
use stm32f411_nucleo::uart::{
    compute_uart_bd, rx_step, uart1_read, uart1_try_read, uart2_init, uart2_print, uart2_send,
    uart_read, uart_write, RxAction, RxState,
};
use stm32f411_nucleo::uart2_dma::{dma1_stream6_uart_tx_config, uart2_rx_tx_init};

fn sent(ops: &[BusOp]) -> Vec<u8> {
    ops.iter()
        .filter_map(|op| match op {
            BusOp::Write { reg: Reg::Usart2Dr, value } => Some(*value as u8),
            _ => None,
        })
        .collect()
}

#[test]
fn baud_divisor_rounds_to_nearest() {
    assert_eq!(compute_uart_bd(16_000_000, 115200), 139);
    assert_eq!(compute_uart_bd(16_000_000, 9600), 1667);
    assert_eq!(compute_uart_bd(10, 4), 3);
    assert_eq!(compute_uart_bd(9, 4), 2);
}

#[test]
fn baud_divisor_keeps_low_sixteen_bits() {
    assert_eq!(compute_uart_bd(16_000_000, 1), (16_000_000u32 % 65536) as u16);
    assert_eq!(compute_uart_bd(0x1_0000, 1), 0);
}

#[test]
fn uart_write_waits_then_writes() {
    assert_eq!(
        uart_write(b'A'),
        vec![
            BusOp::WaitSet { reg: Reg::Usart2Sr, mask: 1 << 7 },
            BusOp::Write { reg: Reg::Usart2Dr, value: 0x41 },
        ]
    );
}

#[test]
fn print_translates_line_feeds() {
    let ops = uart2_print("hi\nyo\n");
    assert_eq!(sent(&ops), b"hi\r\nyo\r\n".to_vec());
    assert_eq!(ops.len(), 2 * 8);
}

#[test]
fn print_keeps_text_without_line_feeds() {
    assert_eq!(sent(&uart2_print("count: 3")), b"count: 3".to_vec());
    assert!(uart2_print("").is_empty());
}

#[test]
fn existing_carriage_returns_are_kept() {
    assert_eq!(sent(&uart2_print("x\r\n")), b"x\r\r\n".to_vec());
}

#[test]
fn send_bytes_removing_inserted_cr_gives_input() {
    let input = b"a\nb\n\nc".to_vec();
    let out = sent(&uart2_send(&input));
    let mut back = Vec::new();
    let mut i = 0;
    while i < out.len() {
        if out[i] == b'\r' && i + 1 < out.len() && out[i + 1] == b'\n' {
            i += 1;
            continue;
        }
        back.push(out[i]);
        i += 1;
    }
    assert_eq!(back, input);
    assert_eq!(out.len(), input.len() + 3);
}

#[test]
fn uart2_init_programs_brr() {
    let ops = uart2_init(115200);
    assert_eq!(ops.len(), 7);
    assert_eq!(ops[4], BusOp::Write { reg: Reg::Usart2Brr, value: 139 });
    assert_eq!(ops[5], BusOp::Modify { reg: Reg::Usart2Cr1, mask: 1 << 3, value: 1 << 3 });
    assert_eq!(ops[6], BusOp::Modify { reg: Reg::Usart2Cr1, mask: 1 << 13, value: 1 << 13 });
}

#[test]
fn uart1_read_waits_for_rxne() {
    assert_eq!(
        uart1_read(),
        vec![
            BusOp::WaitSet { reg: Reg::Usart1Sr, mask: 1 << 5 },
            BusOp::Receive { reg: Reg::Usart1Dr },
        ]
    );
}

fn run_rx(start: (RxState, RxAction), status: &[u32], data: u32) -> (Option<u8>, usize, usize) {
    let (mut st, mut act) = start;
    let mut status_reads = 0;
    let mut data_reads = 0;
    loop {
        match act {
            RxAction::ReadStatus => {
                let v = status[status_reads];
                status_reads += 1;
                let r = rx_step(st, v);
                st = r.0;
                act = r.1;
            }
            RxAction::ReadData => {
                data_reads += 1;
                let r = rx_step(st, data);
                st = r.0;
                act = r.1;
            }
            RxAction::Finish { byte } => return (byte, status_reads, data_reads),
        }
    }
}

#[test]
fn try_read_returns_waiting_byte() {
    assert_eq!(run_rx(uart1_try_read(), &[0x20, 0x20], 0x1_41), (Some(0x41), 2, 1));
}

#[test]
fn try_read_discards_on_error() {
    assert_eq!(run_rx(uart1_try_read(), &[0x28, 0x20], 0x41), (None, 1, 1));
    assert_eq!(run_rx(uart1_try_read(), &[0x02], 0x41), (None, 1, 1));
    assert_eq!(run_rx(uart1_try_read(), &[0x04], 0x41), (None, 1, 1));
}

#[test]
fn try_read_without_data_reads_nothing() {
    assert_eq!(run_rx(uart1_try_read(), &[0x00, 0x00], 0x41), (None, 2, 0));
}

#[test]
fn uart_read_checks_once() {
    assert_eq!(run_rx(uart_read(), &[0x20], 0x7A), (Some(0x7A), 1, 1));
    assert_eq!(run_rx(uart_read(), &[0x08], 0x7A), (None, 1, 0));
}

#[test]
fn dma_console_at_115200() {
    let ops = uart2_rx_tx_init();
    assert_eq!(ops.len(), 15);
    assert_eq!(ops[6], BusOp::Write { reg: Reg::Usart2Brr, value: 139 });
    assert_eq!(ops[11], BusOp::Modify { reg: Reg::Usart2Sr, mask: 1 << 6, value: 0 });
}

#[test]
fn dma_stream_config_counts_bytes() {
    let ops = dma1_stream6_uart_tx_config(0x2000_0000, 5);
    assert_eq!(ops[2], BusOp::Write { reg: Reg::Dma1Hifcr, value: 0x002C_0000 });
    assert_eq!(ops[4], BusOp::Write { reg: Reg::Dma1S6M0ar, value: 0x2000_0000 });
    assert_eq!(ops[5], BusOp::Write { reg: Reg::Dma1S6Ndtr, value: 5 });
    let ops = dma1_stream6_uart_tx_config(0x2000_0000, 0xFFFF);
    assert_eq!(ops[5], BusOp::Write { reg: Reg::Dma1S6Ndtr, value: 0xFFFF });
    assert_eq!(ops[6], BusOp::Modify { reg: Reg::Dma1S6Cr, mask: 7 << 25, value: 4 << 25 });
    assert_eq!(ops[8], BusOp::Modify { reg: Reg::Dma1S6Cr, mask: 3 << 6, value: 1 << 6 });
    assert_eq!(*ops.last().unwrap(), BusOp::Modify { reg: Reg::Dma1S6Cr, mask: 1, value: 1 });
}

#[test]
fn modify_changes_only_masked_bits() {
    assert_eq!(apply_modify(0xFFFF_0000, 0x0000_0F00, 0x0000_0A00), 0xFFFF_0A00);
    assert_eq!(apply_modify(0x1234_5678, 0xF000_0000, 0xFFFF_FFFF), 0xF234_5678);
    let once = apply_modify(0xDEAD_BEEF, 0x00FF_0000, 0x0012_0000);
    assert_eq!(apply_modify(once, 0x00FF_0000, 0x0012_0000), once);
}

#[test]
fn baud_divisor_is_monotonic() {
    let clocks = [1_000_000u32, 8_000_000, 16_000_000, 16_000_001, 50_000_000];
    let rates = [300u32, 1200, 9600, 19200, 57600, 115200, 230400];
    for &b in &rates {
        for w in clocks.windows(2) {
            if (w[1] + b / 2) / b < 0x1_0000 {
                assert!(compute_uart_bd(w[0], b) <= compute_uart_bd(w[1], b));
            }
        }
    }
    for &c in &clocks {
        for w in rates.windows(2) {
            if (c + w[0] / 2) / w[0] < 0x1_0000 {
                assert!(compute_uart_bd(c, w[0]) >= compute_uart_bd(c, w[1]));
            }
        }
    }
}

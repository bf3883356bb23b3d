use max32660_hal::gpio::{Disconnected, Gpio, GpioRegs, Pin};
use max32660_hal::i2c::{Command, I2CPort0Slave, I2cOp, I2cStatus};

fn zero_regs() -> GpioRegs {
    GpioRegs {
        en: 0xFFFF,
        en1: 0,
        en2: 0,
        out_en: 0xFFFF,
        out: 0,
        input: 0,
        pad_cfg1: 0,
        ps: 0,
        ds: 0,
        ds1: 0,
    }
}

fn slave(regs: &mut GpioRegs) -> I2CPort0Slave {
    let scl: Pin<Gpio, Disconnected, 8> = Pin::new();
    let sda: Pin<Gpio, Disconnected, 9> = Pin::new();
    I2CPort0Slave::new_i2c0_slave(scl, sda, regs)
}

#[test]
fn new_slave_sets_up_pins() {
    let mut regs = zero_regs();
    let mut port = slave(&mut regs);
    assert_eq!(regs.en, 0xFCFF);
    assert_eq!(regs.out_en, 0xFCFF);
    assert!(port.take_program().is_empty());
}

#[test]
fn configure_short_address() {
    let mut regs = zero_regs();
    let mut port = slave(&mut regs);
    port.configure(0x42);
    let p = port.take_program();
    assert_eq!(p.len(), 10);
    assert_eq!(p[0], I2cOp::SlaveMode);
    assert_eq!(p[6], I2cOp::ClkHigh(32));
    assert_eq!(p[7], I2cOp::HsClkHigh(32));
    assert_eq!(p[8], I2cOp::SlaveAddr(0x42));
    assert_eq!(p[9], I2cOp::ExtendedAddr(false));
}

#[test]
fn configure_ten_bit_address() {
    let mut regs = zero_regs();
    let mut port = slave(&mut regs);
    port.configure(127);
    assert_eq!(port.take_program()[9], I2cOp::ExtendedAddr(false));
    port.configure(128);
    let p = port.take_program();
    assert_eq!(p[8], I2cOp::SlaveAddr(128));
    assert_eq!(p[9], I2cOp::ExtendedAddr(true));
}

#[test]
fn interrupt_triplets() {
    let mut regs = zero_regs();
    let mut port = slave(&mut regs);
    port.enable_stop_intr();
    port.clear_stop_intr();
    port.disable_stop_intr();
    port.enable_done_intr();
    port.clear_done_intr();
    port.disable_done_intr();
    port.enable_addr_match_intr();
    port.clear_addr_match_intr();
    port.disable_addr_match_intr();
    port.flush_tx_fifo();
    port.flush_rx_fifo();
    port.enable();
    port.disable();
    assert_eq!(
        port.take_program(),
        vec![
            I2cOp::StopIntr(true),
            I2cOp::ClearStop,
            I2cOp::StopIntr(false),
            I2cOp::DoneIntr(true),
            I2cOp::ClearDone,
            I2cOp::DoneIntr(false),
            I2cOp::AddrMatchIntr(true),
            I2cOp::ClearAddrMatch,
            I2cOp::AddrMatchIntr(false),
            I2cOp::FlushTx,
            I2cOp::FlushRx,
            I2cOp::Enable(true),
            I2cOp::Enable(false),
        ]
    );
}

#[test]
fn status_checks_and_command() {
    let mut regs = zero_regs();
    let mut port = slave(&mut regs);
    assert_eq!(port.get_command(), Command::Write);
    port.observe(I2cStatus {
        read_command: true,
        tx_fifo_cnt: 2,
        rx_fifo_cnt: 7,
        done: true,
        stop: false,
        addr_match: true,
    });
    assert_eq!(port.get_command(), Command::Read);
    assert_eq!(port.num_elements_tx_fifo(), 2);
    assert_eq!(port.num_elements_rx_fifo(), 7);
    assert!(port.check_done_flag());
    assert!(!port.check_stop_intr());
    assert!(port.check_addr_match_intr());
}

#[test]
fn write_unlocks_then_queues_bytes() {
    let mut regs = zero_regs();
    let mut port = slave(&mut regs);
    let mut data: heapless::Vec<u8, 16> = heapless::Vec::new();
    data.push(0x10).unwrap();
    data.push(0x20).unwrap();
    port.write(&data);
    assert_eq!(
        port.take_program(),
        vec![I2cOp::ClearTxLock, I2cOp::WriteFifo(0x10), I2cOp::WriteFifo(0x20)]
    );
    let empty: heapless::Vec<u8, 16> = heapless::Vec::new();
    port.write(&empty);
    assert_eq!(port.take_program(), vec![I2cOp::ClearTxLock]);
}

#[test]
fn read_appends_fifo_bytes() {
    let mut regs = zero_regs();
    let mut port = slave(&mut regs);
    let mut data: heapless::Vec<u8, 16> = heapless::Vec::new();
    data.push(1).unwrap();
    port.read(&mut data, &[2, 3, 4]);
    assert_eq!(data.as_slice(), &[1, 2, 3, 4]);
    let full = [7u8; 12];
    port.read(&mut data, &full);
    assert_eq!(data.len(), 16);
    assert_eq!(data[15], 7);
    assert!(port.take_program().is_empty());
}

#[test]
fn try_read_refuses_what_does_not_fit() {
    let mut regs = zero_regs();
    let mut port = slave(&mut regs);
    let mut data: heapless::Vec<u8, 16> = heapless::Vec::new();
    assert!(port.try_read(&mut data, &[5u8; 10]));
    assert_eq!(data.len(), 10);
    assert!(!port.try_read(&mut data, &[6u8; 7]));
    assert_eq!(data.len(), 10);
    assert!(port.try_read(&mut data, &[6u8; 6]));
    assert_eq!(data.len(), 16);
    assert_eq!(data[10], 6);
}

//! I2C controller 0: pin setup, slave configuration, interrupt flags and
//! FIFO access, as register programs over the last status read.
use crate::gpio::{AltMode, Floating, GpioRegs, Input, Pin, AF1};
use core::marker::PhantomData;
use vstd::prelude::*;

verus! {

/// I2C0 pins: SCL and SDA.
pub const I2C0_SCL: u8 = 8;
pub const I2C0_SDA: u8 = 9;

/// Depth of the buffers that `write` and `read` take, in bytes.
pub const BUFFER_CAPACITY: usize = 16;

/// Ticks of SCL high: chosen long enough for any data setup time.
pub const CLK_HI: u16 = 32;

/// Ticks of SCL high in high-speed mode.
pub const HS_CLK_HI: u8 = 32;

/// Largest address of the 7-bit address space.
pub const MAX_SHORT_ADDR: u16 = 127;

#[verifier::external_type_specification]
#[verifier::external_body]
#[verifier::reject_recursive_types(T)]
pub struct ExHeaplessVec<T, const N: usize>(heapless::Vec<T, N>);

/// The bytes held by a buffer, in order.
pub uninterp spec fn buffer_bytes(v: heapless::Vec<u8, 16>) -> Seq<u8>;

/// Relies on heapless::Vec::as_slice: the stored bytes in order, never more
/// than the capacity of 16.
#[verifier::external_body]
fn buffer_slice(v: &heapless::Vec<u8, 16>) -> (r: &[u8])
    ensures
        r@ == buffer_bytes(*v),
        r@.len() <= 16,
{
    v.as_slice()
}

/// Relies on heapless::Vec::push: below capacity the byte is appended and
/// the push succeeds; at capacity the buffer is unchanged and it fails.
#[verifier::external_body]
fn buffer_push(v: &mut heapless::Vec<u8, 16>, b: u8) -> (pushed: bool)
    ensures
        pushed == (buffer_bytes(*old(v)).len() < 16),
        pushed ==> buffer_bytes(*final(v)) == buffer_bytes(*old(v)).push(b),
        !pushed ==> buffer_bytes(*final(v)) == buffer_bytes(*old(v)),
{
    v.push(b).is_ok()
}

/// Direction of the transfer that the master asked for.
#[derive(Clone, Copy, Debug, PartialEq, Eq, Structural)]
pub enum Command {
    Read,
    Write,
}

/// One write to a field of the I2C0 block, in program order.
#[derive(Clone, Copy, Debug, PartialEq, Eq, Structural)]
pub enum I2cOp {
    /// CTRL.I2C_EN.
    Enable(bool),
    /// CTRL.MST: slave mode.
    SlaveMode,
    /// CTRL.GEN_CALL_ADDR: general call address ignored.
    GeneralCallDisable,
    /// CTRL.SCL_CLK_STRECH_DIS: clock stretching off.
    ClockStretchDisable,
    /// CTRL.HS_MODE: high-speed mode off.
    HsModeDisable,
    /// RX_CTRL0.DNR: respond to the address.
    DnrRespond,
    /// TX_CTRL0.TX_PRELOAD cleared.
    TxPreloadClear,
    /// CLK_HI.CKH.
    ClkHigh(u16),
    /// HS_CLK.HS_CLK_HI.
    HsClkHigh(u8),
    /// SLAVE_ADDR.SLAVE_ADDR.
    SlaveAddr(u16),
    /// SLAVE_ADDR.EX_ADDR: 10-bit addressing.
    ExtendedAddr(bool),
    /// TX_CTRL0.TX_FLUSH.
    FlushTx,
    /// RX_CTRL0.RX_FLUSH.
    FlushRx,
    /// INT_FL0.TX_LOCK_OUT cleared (written 1).
    ClearTxLock,
    /// INT_FL0.DONE cleared (written 1).
    ClearDone,
    /// INT_FL0.STOP cleared (written 1).
    ClearStop,
    /// INT_FL0.ADDR_MATCH cleared (written 1).
    ClearAddrMatch,
    /// INT_EN0.STOP.
    StopIntr(bool),
    /// INT_EN0.DONE.
    DoneIntr(bool),
    /// INT_EN0.ADDR_MATCH.
    AddrMatchIntr(bool),
    /// FIFO: one byte into the transmit FIFO.
    WriteFifo(u8),
}

/// Status of the I2C block as last read from its registers.
#[derive(Clone, Copy, Debug, PartialEq, Eq, Structural)]
pub struct I2cStatus {
    /// CTRL.READ: the master asked to read.
    pub read_command: bool,
    /// TX_CTRL1.TX_FIFO.
    pub tx_fifo_cnt: u8,
    /// RX_CTRL1.RX_FIFO.
    pub rx_fifo_cnt: u8,
    /// INT_FL0.DONE.
    pub done: bool,
    /// INT_FL0.STOP.
    pub stop: bool,
    /// INT_FL0.ADDR_MATCH.
    pub addr_match: bool,
}

/// The status before anything has been read.
pub open spec fn quiet_status() -> I2cStatus {
    I2cStatus {
        read_command: false,
        tx_fifo_cnt: 0,
        rx_fifo_cnt: 0,
        done: false,
        stop: false,
        addr_match: false,
    }
}

/// Program of the slave `configure`: slave mode, no general call, no clock
/// stretching, standard speeds, respond to the address, no preload, SCL high
/// times, then the address and whether it needs 10-bit addressing.
pub open spec fn slave_program(addr: u16) -> Seq<I2cOp> {
    seq![
        I2cOp::SlaveMode,
        I2cOp::GeneralCallDisable,
        I2cOp::ClockStretchDisable,
        I2cOp::HsModeDisable,
        I2cOp::DnrRespond,
        I2cOp::TxPreloadClear,
        I2cOp::ClkHigh(CLK_HI),
        I2cOp::HsClkHigh(HS_CLK_HI),
        I2cOp::SlaveAddr(addr),
        I2cOp::ExtendedAddr(addr > MAX_SHORT_ADDR),
    ]
}

/// The FIFO writes of `bytes`, in order.
pub open spec fn fifo_writes(bytes: Seq<u8>) -> Seq<I2cOp> {
    bytes.map_values(|b: u8| I2cOp::WriteFifo(b))
}

/// I2C0 as a slave (type state).
pub struct I2C0Slave;

/// I2C0 as a master (type state).
pub struct I2C0Master;

/// The roles that share the I2C0 register block.
pub trait I2CShared {}

impl I2CShared for I2C0Slave {}

impl I2CShared for I2C0Master {}

/// The two bus pins, each a floating input in the port's alternate function:
/// the pads are open drain on the bus side.
pub struct Pins<AF: AltMode, const SCL_IDX: u8, const SDA_IDX: u8> {
    scl: Pin<AF, Input<Floating>, SCL_IDX>,
    sda: Pin<AF, Input<Floating>, SDA_IDX>,
}

/// An I2C port: its pins, the status last read from it, and the register
/// program that its operations have produced and that is yet to run.
pub struct I2CPort<AF: AltMode, PORT, const SCL_IDX: u8, const SDA_IDX: u8> {
    pins: Pins<AF, SCL_IDX, SDA_IDX>,
    status: I2cStatus,
    program: Vec<I2cOp>,
    _port: PhantomData<PORT>,
}

/// The GPIO image after both bus pins are given slot `slot` and made
/// floating inputs.
pub open spec fn i2c_pin_setup(r: GpioRegs, scl: u32, sda: u32, slot: crate::gpio::AltSlot) -> GpioRegs {
    r.with_slot(scl, slot).with_slot(sda, slot).floating_at(scl).floating_at(sda)
}

impl<AF: AltMode, PORT, const SCL_IDX: u8, const SDA_IDX: u8> I2CPort<AF, PORT, SCL_IDX, SDA_IDX> {
    /// The register program not yet taken.
    pub closed spec fn program(self) -> Seq<I2cOp> {
        self.program@
    }

    /// The status last read from the block.
    pub closed spec fn status(self) -> I2cStatus {
        self.status
    }

    /// Puts both pins in the port's alternate function, as floating inputs.
    fn configure_pins<SA: AltMode, IA: AltMode, SM, IM>(
        scl: Pin<SA, SM, SCL_IDX>,
        sda: Pin<IA, IM, SDA_IDX>,
        gpio: &mut GpioRegs,
    ) -> (r: Pins<AF, SCL_IDX, SDA_IDX>)
        ensures
            *final(gpio) == i2c_pin_setup(*old(gpio), SCL_IDX as u32, SDA_IDX as u32, AF::spec_slot()),
    {
        let scl_mode = scl.into_mode::<AF>(gpio);
        let sda_mode = sda.into_mode::<AF>(gpio);
        let scl_electrical = scl_mode.into_floating_input(gpio);
        let sda_electrical = sda_mode.into_floating_input(gpio);
        Pins { scl: scl_electrical, sda: sda_electrical }
    }

    /// Records the status just read from the block.
    pub fn observe(&mut self, status: I2cStatus)
        ensures
            final(self).status() == status,
            final(self).program() == old(self).program(),
    {
        self.status = status;
    }

    /// Hands over the program produced so far, leaving none.
    pub fn take_program(&mut self) -> (r: Vec<I2cOp>)
        ensures
            r@ == old(self).program(),
            final(self).program() == Seq::<I2cOp>::empty(),
            final(self).status() == old(self).status(),
    {
        let mut taken: Vec<I2cOp> = Vec::new();
        std::mem::swap(&mut taken, &mut self.program);
        taken
    }

    /// Appends one write to the program.
    fn emit(&mut self, op: I2cOp)
        ensures
            final(self).program() == old(self).program().push(op),
            final(self).status() == old(self).status(),
    {
        self.program.push(op);
    }
}

/// I2C0 as a slave in alternate function 1 on its default pins.
pub type I2CPort0Slave = I2CPort<AF1, I2C0Slave, I2C0_SCL, I2C0_SDA>;

impl I2CPort<AF1, I2C0Slave, I2C0_SCL, I2C0_SDA> {
    /// Takes the two pins of I2C0 in any role and sets them up for the bus.
    pub fn new_i2c0_slave<SA: AltMode, IA: AltMode, SM, IM>(
        scl: Pin<SA, SM, I2C0_SCL>,
        sda: Pin<IA, IM, I2C0_SDA>,
        gpio: &mut GpioRegs,
    ) -> (r: Self)
        ensures
            *final(gpio) == i2c_pin_setup(*old(gpio), 8, 9, crate::gpio::AltSlot::Af1),
            r.program() == Seq::<I2cOp>::empty(),
            r.status() == quiet_status(),
    {
        let pins = Self::configure_pins(scl, sda, gpio);
        I2CPort {
            pins,
            status: I2cStatus {
                read_command: false,
                tx_fifo_cnt: 0,
                rx_fifo_cnt: 0,
                done: false,
                stop: false,
                addr_match: false,
            },
            program: Vec::new(),
            _port: PhantomData,
        }
    }

    /// Configures the port as a slave answering at `addr`, with 10-bit
    /// addressing when `addr` does not fit in seven bits.
    pub fn configure(&mut self, addr: u16)
        ensures
            final(self).program() == old(self).program() + slave_program(addr),
            final(self).status() == old(self).status(),
    {
        self.emit(I2cOp::SlaveMode);
        self.emit(I2cOp::GeneralCallDisable);
        self.emit(I2cOp::ClockStretchDisable);
        self.emit(I2cOp::HsModeDisable);
        self.emit(I2cOp::DnrRespond);
        self.emit(I2cOp::TxPreloadClear);
        self.emit(I2cOp::ClkHigh(CLK_HI));
        self.emit(I2cOp::HsClkHigh(HS_CLK_HI));
        self.emit(I2cOp::SlaveAddr(addr));
        self.emit(I2cOp::ExtendedAddr(addr > MAX_SHORT_ADDR));
        assert(final(self).program() =~= old(self).program() + slave_program(addr));
    }
}

/// Programs that write one field.
pub open spec fn one(op: I2cOp) -> Seq<I2cOp> {
    seq![op]
}

impl<AF: AltMode, P: I2CShared> I2CPort<AF, P, I2C0_SCL, I2C0_SDA> {
    /// Enables the I2C peripheral.
    pub fn enable(&mut self)
        ensures
            final(self).program() == old(self).program() + one(I2cOp::Enable(true)),
            final(self).status() == old(self).status(),
    {
        self.emit(I2cOp::Enable(true));
    }

    /// Disables the I2C peripheral.
    pub fn disable(&mut self)
        ensures
            final(self).program() == old(self).program() + one(I2cOp::Enable(false)),
            final(self).status() == old(self).status(),
    {
        self.emit(I2cOp::Enable(false));
    }

    /// The direction the master asked for, as last read.
    pub fn get_command(&mut self) -> (r: Command)
        ensures
            r == (if old(self).status().read_command {
                Command::Read
            } else {
                Command::Write
            }),
            *final(self) == *old(self),
    {
        if self.status.read_command {
            Command::Read
        } else {
            Command::Write
        }
    }

    /// Flushes the transmit FIFO.
    pub fn flush_tx_fifo(&mut self)
        ensures
            final(self).program() == old(self).program() + one(I2cOp::FlushTx),
            final(self).status() == old(self).status(),
    {
        self.emit(I2cOp::FlushTx);
    }

    /// Releases the transmit FIFO lock.
    fn clear_tx_fifo_lock(&mut self)
        ensures
            final(self).program() == old(self).program() + one(I2cOp::ClearTxLock),
            final(self).status() == old(self).status(),
    {
        self.emit(I2cOp::ClearTxLock);
    }

    /// Bytes in the transmit FIFO, as last read.
    pub fn num_elements_tx_fifo(&mut self) -> (r: u8)
        ensures
            r == old(self).status().tx_fifo_cnt,
            *final(self) == *old(self),
    {
        self.status.tx_fifo_cnt
    }

    /// Clears the transfer-done flag.
    pub fn clear_done_intr(&mut self)
        ensures
            final(self).program() == old(self).program() + one(I2cOp::ClearDone),
            final(self).status() == old(self).status(),
    {
        self.emit(I2cOp::ClearDone);
    }

    /// The transfer-done flag, as last read.
    pub fn check_done_flag(&mut self) -> (r: bool)
        ensures
            r == old(self).status().done,
            *final(self) == *old(self),
    {
        self.status.done
    }

    /// Flushes the receive FIFO.
    pub fn flush_rx_fifo(&mut self)
        ensures
            final(self).program() == old(self).program() + one(I2cOp::FlushRx),
            final(self).status() == old(self).status(),
    {
        self.emit(I2cOp::FlushRx);
    }

    /// Bytes in the receive FIFO, as last read.
    pub fn num_elements_rx_fifo(&mut self) -> (r: u8)
        ensures
            r == old(self).status().rx_fifo_cnt,
            *final(self) == *old(self),
    {
        self.status.rx_fifo_cnt
    }

    /// Enables the stop interrupt.
    pub fn enable_stop_intr(&mut self)
        ensures
            final(self).program() == old(self).program() + one(I2cOp::StopIntr(true)),
            final(self).status() == old(self).status(),
    {
        self.emit(I2cOp::StopIntr(true));
    }

    /// The stop flag, as last read.
    pub fn check_stop_intr(&self) -> (r: bool)
        ensures
            r == self.status().stop,
    {
        self.status.stop
    }

    /// Clears the stop flag.
    pub fn clear_stop_intr(&mut self)
        ensures
            final(self).program() == old(self).program() + one(I2cOp::ClearStop),
            final(self).status() == old(self).status(),
    {
        self.emit(I2cOp::ClearStop);
    }

    /// Disables the stop interrupt.
    pub fn disable_stop_intr(&mut self)
        ensures
            final(self).program() == old(self).program() + one(I2cOp::StopIntr(false)),
            final(self).status() == old(self).status(),
    {
        self.emit(I2cOp::StopIntr(false));
    }

    /// Enables the transfer-done interrupt.
    pub fn enable_done_intr(&mut self)
        ensures
            final(self).program() == old(self).program() + one(I2cOp::DoneIntr(true)),
            final(self).status() == old(self).status(),
    {
        self.emit(I2cOp::DoneIntr(true));
    }

    /// Disables the transfer-done interrupt.
    pub fn disable_done_intr(&mut self)
        ensures
            final(self).program() == old(self).program() + one(I2cOp::DoneIntr(false)),
            final(self).status() == old(self).status(),
    {
        self.emit(I2cOp::DoneIntr(false));
    }

    /// Enables the slave address-match interrupt.
    pub fn enable_addr_match_intr(&mut self)
        ensures
            final(self).program() == old(self).program() + one(I2cOp::AddrMatchIntr(true)),
            final(self).status() == old(self).status(),
    {
        self.emit(I2cOp::AddrMatchIntr(true));
    }

    /// Disables the slave address-match interrupt.
    pub fn disable_addr_match_intr(&mut self)
        ensures
            final(self).program() == old(self).program() + one(I2cOp::AddrMatchIntr(false)),
            final(self).status() == old(self).status(),
    {
        self.emit(I2cOp::AddrMatchIntr(false));
    }

    /// Clears the address-match flag.
    pub fn clear_addr_match_intr(&mut self)
        ensures
            final(self).program() == old(self).program() + one(I2cOp::ClearAddrMatch),
            final(self).status() == old(self).status(),
    {
        self.emit(I2cOp::ClearAddrMatch);
    }

    /// The address-match flag, as last read.
    pub fn check_addr_match_intr(&self) -> (r: bool)
        ensures
            r == self.status().addr_match,
    {
        self.status.addr_match
    }

    /// Releases the transmit FIFO lock, then queues every byte of `data`.
    pub fn write(&mut self, data: &heapless::Vec<u8, 16>)
        ensures
            final(self).program() == old(self).program() + one(I2cOp::ClearTxLock) + fifo_writes(
                buffer_bytes(*data),
            ),
            final(self).status() == old(self).status(),
    {
        self.clear_tx_fifo_lock();
        let bytes = buffer_slice(data);
        let ghost head = self.program();
        let len = bytes.len();
        let mut i: usize = 0;
        while i < len
            invariant
                i <= len,
                len == bytes@.len(),
                self.program() == head + fifo_writes(bytes@.subrange(0, i as int)),
                self.status() == old(self).status(),
            decreases len - i,
        {
            self.emit(I2cOp::WriteFifo(bytes[i]));
            i += 1;
            assert(bytes@.subrange(0, i as int) == bytes@.subrange(0, (i - 1) as int).push(
                bytes@[i - 1],
            ));
            assert(fifo_writes(bytes@.subrange(0, i as int)) =~= fifo_writes(
                bytes@.subrange(0, (i - 1) as int),
            ).push(I2cOp::WriteFifo(bytes@[i - 1])));
        }
        assert(bytes@.subrange(0, len as int) == bytes@);
    }

    /// Appends to `data` the bytes just popped from the receive FIFO, which
    /// must fit in what room `data` has left.
    pub fn read(&mut self, data: &mut heapless::Vec<u8, 16>, fifo: &[u8])
        requires
            buffer_bytes(*old(data)).len() + fifo@.len() <= 16,
        ensures
            buffer_bytes(*final(data)) == buffer_bytes(*old(data)) + fifo@,
            *final(self) == *old(self),
    {
        let mut i: usize = 0;
        while i < fifo.len()
            invariant
                i <= fifo@.len(),
                buffer_bytes(*old(data)).len() + fifo@.len() <= 16,
                buffer_bytes(*data) == buffer_bytes(*old(data)) + fifo@.subrange(0, i as int),
            decreases fifo@.len() - i,
        {
            let pushed = buffer_push(data, fifo[i]);
            assert(pushed);
            i += 1;
            assert(fifo@.subrange(0, i as int) == fifo@.subrange(0, (i - 1) as int).push(
                fifo@[i - 1],
            ));
        }
        assert(fifo@.subrange(0, fifo@.len() as int) == fifo@);
    }
    /// `read`, when the bytes fit in what room `data` has left; otherwise
    /// `data` is left as it was. Returns whether the bytes were appended.
    pub fn try_read(&mut self, data: &mut heapless::Vec<u8, 16>, fifo: &[u8]) -> (r: bool)
        ensures
            r == (buffer_bytes(*old(data)).len() + fifo@.len() <= 16),
            r ==> buffer_bytes(*final(data)) == buffer_bytes(*old(data)) + fifo@,
            !r ==> *final(data) == *old(data),
            *final(self) == *old(self),
    {
        let held = buffer_slice(data).len();
        if fifo.len() <= BUFFER_CAPACITY - held {
            self.read(data, fifo);
            true
        } else {
            false
        }
    }
}

} // verus!

//! SPI master driver: pin setup, clock divisors, and the register programs
//! of configuration and transfers.
use crate::clocks::PCLK_FREQ;
use crate::gpio::{
    AltMode, DriveStrength, Floating, Gpio, GpioRegs, Input, Level, Output, Pin, PushPull, AF1, AF2,
};
use core::marker::PhantomData;
use vstd::prelude::*;

verus! {

/// Clock divisor fields of the SPI clock configuration register.
#[derive(Clone, Copy, Debug, PartialEq, Eq, Structural)]
pub struct SclkDividers {
    /// Peripheral clock ticks that SCK stays high.
    pub high_clk: u8,
    /// Peripheral clock ticks that SCK stays low.
    pub low_clk: u8,
    /// Power-of-two prescaler applied before the high and low counts.
    pub scale: u8,
}

/// `2^s`.
pub open spec fn scale_factor(s: nat) -> nat
    decreases s,
{
    if s == 0 {
        1
    } else {
        2 * scale_factor((s - 1) as nat)
    }
}

/// Halves both counts, one prescaler step at a time, while the high count
/// exceeds 16 and fewer than nine steps have been taken.
pub open spec fn halve_counts(high: nat, low: nat, scale: nat) -> (nat, nat, nat)
    decreases 9 - scale,
{
    if high > 16 && scale < 9 {
        halve_counts(high / 2, low / 2, scale + 1)
    } else {
        (high, low, scale)
    }
}

/// High count, low count and scale for a bus clock of `sclk` from a
/// peripheral clock of `pclk`: the raw divisor `pclk / sclk` split into two
/// halves, the high half taking the odd tick, then halved while too large.
pub open spec fn sclk_dividers_spec(pclk: nat, sclk: nat) -> (nat, nat, nat) {
    let raw = pclk / sclk;
    halve_counts(raw / 2 + raw % 2, raw / 2, 0)
}

/// The divisor fields for `sclk_dividers_spec`, each count cut to its low
/// eight bits.
pub open spec fn sclk_dividers(pclk: u32, sclk: u32) -> SclkDividers {
    let t = sclk_dividers_spec(pclk as nat, sclk as nat);
    SclkDividers {
        high_clk: (t.0 % 256) as u8,
        low_clk: (t.1 % 256) as u8,
        scale: (t.2 % 256) as u8,
    }
}

/// The clock divisors for a bus clock of `sclk_freq` from a peripheral clock
/// of `pclk_freq`. Halving discards remainders, so once the prescaler is in
/// use the bus clock may come out somewhat faster than asked; a count that
/// does not fit its field is cut to its low eight bits.
pub fn get_sclk_dividers(pclk_freq: u32, sclk_freq: u32) -> (r: SclkDividers)
    requires
        sclk_freq > 0,
    ensures
        r == sclk_dividers(pclk_freq, sclk_freq),
{
    let freq_div = pclk_freq / sclk_freq;
    let mut high_clk: u32 = freq_div / 2;
    let mut low_clk: u32 = high_clk;
    let mut scale: u32 = 0;
    if freq_div % 2 == 1 {
        high_clk += 1;
    }
    while high_clk > 16 && scale < 9
        invariant
            scale <= 9,
            halve_counts(high_clk as nat, low_clk as nat, scale as nat) == sclk_dividers_spec(
                pclk_freq as nat,
                sclk_freq as nat,
            ),
        decreases 9 - scale,
    {
        high_clk = high_clk / 2;
        low_clk = low_clk / 2;
        scale += 1;
    }
    SclkDividers { high_clk: (high_clk % 256) as u8, low_clk: (low_clk % 256) as u8, scale: (scale % 256) as u8 }
}

/// What the halving keeps: counts at most one apart, each the floor of its
/// start divided by the prescaler, and, after a step, both at least 8.
proof fn lemma_halve_counts(h0: nat, l0: nat, high: nat, low: nat, scale: nat)
    requires
        scale <= 9,
        low <= high <= low + 1,
        high * scale_factor(scale) <= h0 < (high + 1) * scale_factor(scale),
        low * scale_factor(scale) <= l0 < (low + 1) * scale_factor(scale),
        scale > 0 ==> low >= 8,
    ensures
        ({
            let (h, l, s) = halve_counts(high, low, scale);
            &&& scale <= s <= 9
            &&& l <= h <= l + 1
            &&& h * scale_factor(s) <= h0 < (h + 1) * scale_factor(s)
            &&& l * scale_factor(s) <= l0 < (l + 1) * scale_factor(s)
            &&& (s > 0 ==> l >= 8)
            &&& (h <= 16 || s == 9)
        }),
    decreases 9 - scale,
{
    if high > 16 && scale < 9 {
        let f = scale_factor(scale);
        lemma_scale_factor_pos(scale);
        assert(scale_factor(scale + 1) == 2 * f);
        let h2 = high / 2;
        let l2 = low / 2;
        assert(h2 * (2 * f) <= h0 < (h2 + 1) * (2 * f)) by (nonlinear_arith)
            requires
                high * f <= h0 < (high + 1) * f,
                h2 == high / 2,
                f > 0,
        ;
        assert(l2 * (2 * f) <= l0 < (l2 + 1) * (2 * f)) by (nonlinear_arith)
            requires
                low * f <= l0 < (low + 1) * f,
                l2 == low / 2,
                f > 0,
        ;
        lemma_halve_counts(h0, l0, h2, l2, scale + 1);
    }
}

proof fn lemma_scale_factor_pos(s: nat)
    ensures
        scale_factor(s) >= 1,
    decreases s,
{
    if s > 0 {
        lemma_scale_factor_pos((s - 1) as nat);
    }
}

/// For a bus clock that the divisor fields can reach (a raw divisor from 2
/// to 17406), both counts lie in 1..=16 and the scale in 0..=9; the divisor
/// `d = (high + low) * 2^scale` is at most the raw divisor `pclk / sclk` and
/// short of it by less than `2^(scale + 1)`, so the bus clock `pclk / d` is
/// at least `sclk`, and exactly the raw divisor's clock when no prescaler
/// step was taken.
pub proof fn lemma_sclk_dividers_in_range(pclk: nat, sclk: nat)
    requires
        sclk > 0,
        2 <= pclk / sclk <= 17406,
    ensures
        ({
            let (h, l, s) = sclk_dividers_spec(pclk, sclk);
            let d = (h + l) * scale_factor(s);
            &&& 1 <= l <= 16
            &&& 1 <= h <= 16
            &&& s <= 9
            &&& d <= pclk / sclk < d + 2 * scale_factor(s)
            &&& (s == 0 ==> d == pclk / sclk)
            &&& d > 0
            &&& pclk / d >= sclk
        }),
{
    let raw = pclk / sclk;
    let h0 = raw / 2 + raw % 2;
    let l0 = raw / 2;
    assert(scale_factor(0) == 1);
    assert(sclk_dividers_spec(pclk, sclk) == halve_counts(h0, l0, 0));
    lemma_halve_counts(h0, l0, h0, l0, 0);
    let (h, l, s) = halve_counts(h0, l0, 0);
    let f = scale_factor(s);
    lemma_scale_factor_pos(s);
    if s == 9 {
        reveal_with_fuel(scale_factor, 10);
        assert(f == 512);
        assert(h <= 16) by (nonlinear_arith)
            requires
                h * f <= h0,
                h0 <= 8703,
                f == 512,
        ;
    }
    assert(s > 0 ==> l >= 8);
    assert(s == 0 ==> h == h0 && l == l0) by (nonlinear_arith)
        requires
            s == 0 ==> f == 1,
            h * f <= h0 < (h + 1) * f,
            l * f <= l0 < (l + 1) * f,
    ;
    let d = (h + l) * f;
    assert(d <= raw < d + 2 * f) by (nonlinear_arith)
        requires
            h * f <= h0 < (h + 1) * f,
            l * f <= l0 < (l + 1) * f,
            h0 + l0 == raw,
            d == (h + l) * f,
    ;
    assert(d > 0) by (nonlinear_arith)
        requires
            d == (h + l) * f,
            h >= 1,
            f >= 1,
    ;
    assert(h0 >= 1 && l0 >= 1);
    assert(1 <= l <= h <= 16);
    assert(pclk / d >= sclk) by (nonlinear_arith)
        requires
            d <= raw,
            raw == pclk / sclk,
            d > 0,
            sclk > 0,
    ;
    if s == 0 {
        assert(f == 1);
        assert(h == h0 && l == l0);
        assert(d == h + l) by (nonlinear_arith)
            requires
                d == (h + l) * f,
                f == 1,
        ;
        assert(h0 + l0 == raw);
    }
}

/// SPI0 pins: SCK, MISO, MOSI and slave select 0.
pub const SPI0_SCK: u8 = 6;
pub const SPI0_MISO: u8 = 4;
pub const SPI0_MOSI: u8 = 5;
pub const SPI0_SS0: u8 = 7;

/// Transmit FIFO level for DMA requests: half of the FIFO, in bytes.
pub const TX_FIFO_LEVEL: u8 = 16;

/// Bits per character.
pub const CHAR_BITS: u8 = 8;

/// SCK level while the bus is idle.
#[derive(Clone, Copy, Debug, PartialEq, Eq, Structural)]
pub enum Polarity {
    IdleLow,
    IdleHigh,
}

/// SCK edge on which data is captured.
#[derive(Clone, Copy, Debug, PartialEq, Eq, Structural)]
pub enum Phase {
    CaptureOnFirstTransition,
    CaptureOnSecondTransition,
}

/// SPI mode: clock polarity and phase.
#[derive(Clone, Copy, Debug, PartialEq, Eq, Structural)]
pub struct Mode {
    pub polarity: Polarity,
    pub phase: Phase,
}

/// One step of a register program for the SPI17Y block: a write to one
/// register field, or a wait on a status bit. Steps run in order; a wait
/// polls until its condition holds, with no timeout.
#[derive(Clone, Copy, Debug, PartialEq, Eq, Structural)]
pub enum SpiOp {
    /// CTRL0.EN: the controller is active.
    Enable(bool),
    /// CTRL0.MASTER: master mode.
    Master(bool),
    /// CTRL0.START: start (or stop) a transaction.
    Start(bool),
    /// CTRL0.SS_IO: slave select is an output.
    SsOutput,
    /// CTRL0.SS_CTRL: slave select deasserts at the end of a transaction.
    SsDeassert,
    /// CTRL0 bit 16: slave select 0 is driven by the controller.
    SsSelect(bool),
    /// SS_TIME.PRE: ticks from slave select to the first SCK edge.
    SsPre(u8),
    /// SS_TIME.POST: ticks from the last SCK edge to slave select release.
    SsPost(u8),
    /// SS_TIME.INACT: ticks of slave select inactive between transactions.
    SsInact(u8),
    /// CTRL2.SS_POL: active level of slave select.
    SsPolarity(Level),
    /// CTRL2.NUMBITS: bits per character.
    NumBits(u8),
    /// CLK_CFG.HI.
    ClkHigh(u8),
    /// CLK_CFG.LO.
    ClkLow(u8),
    /// CLK_CFG.SCALE.
    ClkScale(u8),
    /// CTRL2.CPOL.
    ClockPolarity(Polarity),
    /// CTRL2.CPHA.
    ClockPhase(Phase),
    /// DMA.TX_FIFO_LEVEL.
    TxFifoLevel(u8),
    /// CTRL1.TX_NUM_CHAR: characters in the next transaction.
    TxNumChar(u16),
    /// INT_FL.M_DONE cleared.
    ClearDone,
    /// DMA.TX_FIFO_CLEAR: empties the transmit FIFO.
    ClearTxFifo,
    /// DMA.RX_FIFO_CLEAR: empties the receive FIFO.
    ClearRxFifo,
    /// DMA.TX_FIFO_EN.
    TxFifoEnable(bool),
    /// DMA.RX_FIFO_EN.
    RxFifoEnable(bool),
    /// DATA: one byte into the transmit FIFO.
    WriteData(u8),
    /// Wait until STAT.BUSY is clear.
    AwaitIdle,
    /// Wait until DMA.TX_FIFO_CNT is zero.
    AwaitTxEmpty,
    /// Wait until INT_FL.M_DONE is set.
    AwaitDone,
}

/// Status of the SPI block as last read from its registers.
#[derive(Clone, Copy, Debug, PartialEq, Eq, Structural)]
pub struct SpiStatus {
    /// STAT.BUSY.
    pub busy: bool,
    /// DMA.TX_FIFO_CNT.
    pub tx_fifo_cnt: u8,
    /// DMA.RX_FIFO_CNT.
    pub rx_fifo_cnt: u8,
    /// INT_FL.M_DONE.
    pub m_done: bool,
}

/// Program of `enable`: both FIFOs on, then the controller.
pub open spec fn enable_program() -> Seq<SpiOp> {
    seq![SpiOp::TxFifoEnable(true), SpiOp::RxFifoEnable(true), SpiOp::Enable(true)]
}

/// Program of `disable`: stop, FIFOs off, done flag cleared, controller off.
pub open spec fn disable_program() -> Seq<SpiOp> {
    seq![
        SpiOp::Start(false),
        SpiOp::TxFifoEnable(false),
        SpiOp::RxFifoEnable(false),
        SpiOp::ClearDone,
        SpiOp::Enable(false),
    ]
}

/// Program of `clear_fifos`.
pub open spec fn clear_fifos_program() -> Seq<SpiOp> {
    seq![SpiOp::ClearTxFifo, SpiOp::ClearRxFifo]
}

/// Program of `configure`: the controller disabled first; master mode,
/// slave-select timing, use, direction, release at the end of each
/// transaction and polarity; eight-bit characters; clock divisors; clock
/// polarity and phase; FIFO level and one character per transaction; done
/// flag and FIFOs cleared; and the controller enabled last.
pub open spec fn configure_program(mode: Mode, ss_active_pol: Level, d: SclkDividers) -> Seq<
    SpiOp,
> {
    disable_program() + seq![
        SpiOp::Master(true),
        SpiOp::SsPre(1),
        SpiOp::SsPost(1),
        SpiOp::SsInact(1),
        SpiOp::SsSelect(true),
        SpiOp::SsOutput,
        SpiOp::SsDeassert,
        SpiOp::SsPolarity(ss_active_pol),
        SpiOp::NumBits(CHAR_BITS),
        SpiOp::ClkHigh(d.high_clk),
        SpiOp::ClkLow(d.low_clk),
        SpiOp::ClkScale(d.scale),
        SpiOp::ClockPolarity(mode.polarity),
        SpiOp::ClockPhase(mode.phase),
        SpiOp::TxFifoLevel(TX_FIFO_LEVEL),
        SpiOp::TxNumChar(1),
        SpiOp::ClearDone,
    ] + clear_fifos_program() + enable_program()
}

/// Program of `send`: wait for an idle bus, load the byte, start a
/// one-character transaction, then wait until the transmit FIFO is empty and
/// the done flag is set.
pub open spec fn send_program(word: u8) -> Seq<SpiOp> {
    seq![
        SpiOp::AwaitIdle,
        SpiOp::WriteData(word),
        SpiOp::TxNumChar(1),
        SpiOp::Start(true),
        SpiOp::AwaitTxEmpty,
        SpiOp::AwaitDone,
    ]
}

/// The data writes of `bytes`, in order.
pub open spec fn data_writes(bytes: Seq<u8>) -> Seq<SpiOp> {
    bytes.map_values(|b: u8| SpiOp::WriteData(b))
}

/// Program of `write_chunk`: wait for an idle bus, clear both FIFOs, set the
/// character count, load the first byte, start, and stream the rest without
/// waiting.
pub open spec fn burst_program(data: Seq<u8>) -> Seq<SpiOp> {
    seq![
        SpiOp::AwaitIdle,
        SpiOp::ClearTxFifo,
        SpiOp::ClearRxFifo,
        SpiOp::TxNumChar(data.len() as u16),
        SpiOp::WriteData(data[0]),
        SpiOp::Start(true),
    ] + data_writes(data.subrange(1, data.len() as int))
}

/// The GPIO image after the four bus pins are given slot `slot` and their
/// roles: SCK and MOSI push-pull outputs idling high at the strongest drive,
/// MISO a floating input, slave select a push-pull output idling high.
pub open spec fn spi_pin_setup(
    r: GpioRegs,
    sclk: u32,
    miso: u32,
    mosi: u32,
    ss: u32,
    slot: crate::gpio::AltSlot,
) -> GpioRegs {
    r.with_slot(sclk, slot).with_slot(miso, slot).with_slot(mosi, slot).with_slot(
        ss,
        slot,
    ).push_pull_at(sclk, Level::High).drive_at(sclk, DriveStrength::SixMilliamps).floating_at(
        miso,
    ).push_pull_at(mosi, Level::High).drive_at(mosi, DriveStrength::SixMilliamps).push_pull_at(
        ss,
        Level::High,
    )
}

/// SPI0 port (type state).
pub struct Spi0;

/// SPI1 port (type state).
pub struct Spi1;

/// The pins a port owns, each in its bus role. Slave select is absent while
/// it is under manual control.
pub struct Pins<
    AF: AltMode,
    const SCLK_IDX: u8,
    const MISO_IDX: u8,
    const MOSI_IDX: u8,
    const SS_IDX: u8,
> {
    sclk: Pin<AF, Output<PushPull>, SCLK_IDX>,
    miso: Pin<AF, Input<Floating>, MISO_IDX>,
    mosi: Pin<AF, Output<PushPull>, MOSI_IDX>,
    ss: Option<Pin<AF, Output<PushPull>, SS_IDX>>,
}

/// An SPI port: its pins, the status last read from it, and the register
/// program that its operations have produced and that is yet to run.
pub struct SpiPort<
    AF: AltMode,
    PORT,
    const SCLK_IDX: u8,
    const MISO_IDX: u8,
    const MOSI_IDX: u8,
    const SS_IDX: u8,
> {
    pins: Pins<AF, SCLK_IDX, MISO_IDX, MOSI_IDX, SS_IDX>,
    status: SpiStatus,
    program: Vec<SpiOp>,
    _port: PhantomData<PORT>,
}

/// The idle status of a freshly configured block.
pub open spec fn idle_status() -> SpiStatus {
    SpiStatus { busy: false, tx_fifo_cnt: 0, rx_fifo_cnt: 0, m_done: false }
}

impl<
    AF: AltMode,
    PORT,
    const SCLK_IDX: u8,
    const MISO_IDX: u8,
    const MOSI_IDX: u8,
    const SS_IDX: u8,
> SpiPort<AF, PORT, SCLK_IDX, MISO_IDX, MOSI_IDX, SS_IDX> {
    /// The register program not yet taken.
    pub closed spec fn program(self) -> Seq<SpiOp> {
        self.program@
    }

    /// Whether the port holds its slave-select pin.
    pub closed spec fn has_ss(self) -> bool {
        self.pins.ss.is_some()
    }

    /// The status last read from the block.
    pub closed spec fn status(self) -> SpiStatus {
        self.status
    }

    /// Puts each pin in the port's alternate function and its bus role.
    fn configure_pins<SA: AltMode, IA: AltMode, OA: AltMode, XA: AltMode, SM, IM, OM, XM>(
        sclk: Pin<SA, SM, SCLK_IDX>,
        miso: Pin<IA, IM, MISO_IDX>,
        mosi: Pin<OA, OM, MOSI_IDX>,
        ss: Pin<XA, XM, SS_IDX>,
        gpio: &mut GpioRegs,
    ) -> (r: Pins<AF, SCLK_IDX, MISO_IDX, MOSI_IDX, SS_IDX>)
        ensures
            *final(gpio) == spi_pin_setup(
                *old(gpio),
                SCLK_IDX as u32,
                MISO_IDX as u32,
                MOSI_IDX as u32,
                SS_IDX as u32,
                AF::spec_slot(),
            ),
            r.ss.is_some(),
    {
        let sclk_mode = sclk.into_mode::<AF>(gpio);
        let miso_mode = miso.into_mode::<AF>(gpio);
        let mosi_mode = mosi.into_mode::<AF>(gpio);
        let ss_mode = ss.into_mode::<AF>(gpio);

        let mut sclk_electrical = sclk_mode.into_push_pull_output(gpio, Level::High);
        sclk_electrical.set_drive_strength(gpio, DriveStrength::SixMilliamps);
        let miso_electrical = miso_mode.into_floating_input(gpio);
        let mut mosi_electrical = mosi_mode.into_push_pull_output(gpio, Level::High);
        mosi_electrical.set_drive_strength(gpio, DriveStrength::SixMilliamps);
        let ss_electrical = Some(ss_mode.into_push_pull_output(gpio, Level::High));

        Pins { sclk: sclk_electrical, miso: miso_electrical, mosi: mosi_electrical, ss: ss_electrical }
    }

    fn from_pins(pins: Pins<AF, SCLK_IDX, MISO_IDX, MOSI_IDX, SS_IDX>) -> (r: Self)
        ensures
            r.program() == Seq::<SpiOp>::empty(),
            r.has_ss() == pins.ss.is_some(),
            r.status() == idle_status(),
    {
        SpiPort {
            pins,
            status: SpiStatus { busy: false, tx_fifo_cnt: 0, rx_fifo_cnt: 0, m_done: false },
            program: Vec::new(),
            _port: PhantomData,
        }
    }

    /// Records the status just read from the block.
    pub fn observe(&mut self, status: SpiStatus)
        ensures
            final(self).status() == status,
            final(self).program() == old(self).program(),
            final(self).has_ss() == old(self).has_ss(),
    {
        self.status = status;
    }

    /// Hands over the program produced so far, leaving none.
    pub fn take_program(&mut self) -> (r: Vec<SpiOp>)
        ensures
            r@ == old(self).program(),
            final(self).program() == Seq::<SpiOp>::empty(),
            final(self).status() == old(self).status(),
            final(self).has_ss() == old(self).has_ss(),
    {
        let mut taken: Vec<SpiOp> = Vec::new();
        std::mem::swap(&mut taken, &mut self.program);
        taken
    }

    /// Appends `ops` to the program.
    fn emit(&mut self, ops: &[SpiOp])
        ensures
            final(self).program() == old(self).program() + ops@,
            final(self).status() == old(self).status(),
            final(self).has_ss() == old(self).has_ss(),
    {
        let mut i: usize = 0;
        while i < ops.len()
            invariant
                i <= ops@.len(),
                self.program() == old(self).program() + ops@.subrange(0, i as int),
                self.status() == old(self).status(),
                self.has_ss() == old(self).has_ss(),
            decreases ops@.len() - i,
        {
            self.program.push(ops[i]);
            i += 1;
            assert(ops@.subrange(0, i as int) == ops@.subrange(0, (i - 1) as int).push(ops@[i - 1]));
        }
        assert(ops@.subrange(0, ops@.len() as int) == ops@);
    }
}

/// SPI0 in alternate function 1 on its default pins.
pub type SpiPort0 = SpiPort<AF1, Spi0, SPI0_SCK, SPI0_MISO, SPI0_MOSI, SPI0_SS0>;

/// SPI1 in alternate function 2 on P0.2 (SCK), P0.0 (MISO), P0.1 (MOSI) and
/// P0.3 (slave select).
pub type SpiPort1 = SpiPort<AF2, Spi1, 2, 0, 1, 3>;

impl SpiPort<AF2, Spi1, 2, 0, 1, 3> {
    /// Takes the four pins of SPI1 in any role and sets them up for the bus.
    pub fn new_spi_1_af2<SA: AltMode, IA: AltMode, OA: AltMode, XA: AltMode, SM, IM, OM, XM>(
        sclk: Pin<SA, SM, 2>,
        miso: Pin<IA, IM, 0>,
        mosi: Pin<OA, OM, 1>,
        ss: Pin<XA, XM, 3>,
        gpio: &mut GpioRegs,
    ) -> (r: Self)
        ensures
            *final(gpio) == spi_pin_setup(*old(gpio), 2, 0, 1, 3, crate::gpio::AltSlot::Af2),
            r.program() == Seq::<SpiOp>::empty(),
            r.has_ss(),
            r.status() == idle_status(),
    {
        let pins = Self::configure_pins(sclk, miso, mosi, ss, gpio);
        Self::from_pins(pins)
    }
}

impl SpiPort<AF1, Spi0, SPI0_SCK, SPI0_MISO, SPI0_MOSI, SPI0_SS0> {
    /// Takes the four pins of SPI0 in any role and sets them up for the bus.
    pub fn new_spi_0<SA: AltMode, IA: AltMode, OA: AltMode, XA: AltMode, SM, IM, OM, XM>(
        sclk: Pin<SA, SM, SPI0_SCK>,
        miso: Pin<IA, IM, SPI0_MISO>,
        mosi: Pin<OA, OM, SPI0_MOSI>,
        ss: Pin<XA, XM, SPI0_SS0>,
        gpio: &mut GpioRegs,
    ) -> (r: Self)
        ensures
            *final(gpio) == spi_pin_setup(*old(gpio), 6, 4, 5, 7, crate::gpio::AltSlot::Af1),
            r.program() == Seq::<SpiOp>::empty(),
            r.has_ss(),
            r.status() == idle_status(),
    {
        let pins = Self::configure_pins(sclk, miso, mosi, ss, gpio);
        Self::from_pins(pins)
    }

    /// Configures mode, slave-select polarity and bus clock, leaving the
    /// controller enabled.
    pub fn configure(&mut self, mode: Mode, ss_active_pol: Level, sclk_freq: u32)
        requires
            sclk_freq > 0,
        ensures
            final(self).program() == old(self).program() + configure_program(
                mode,
                ss_active_pol,
                sclk_dividers(PCLK_FREQ, sclk_freq),
            ),
            final(self).status() == old(self).status(),
            final(self).has_ss() == old(self).has_ss(),
    {
        self.disable();
        let d = get_sclk_dividers(PCLK_FREQ, sclk_freq);
        self.emit(
            &[
                SpiOp::Master(true),
                SpiOp::SsPre(1),
                SpiOp::SsPost(1),
                SpiOp::SsInact(1),
                SpiOp::SsSelect(true),
                SpiOp::SsOutput,
                SpiOp::SsDeassert,
                SpiOp::SsPolarity(ss_active_pol),
                SpiOp::NumBits(CHAR_BITS),
                SpiOp::ClkHigh(d.high_clk),
                SpiOp::ClkLow(d.low_clk),
                SpiOp::ClkScale(d.scale),
                SpiOp::ClockPolarity(mode.polarity),
                SpiOp::ClockPhase(mode.phase),
                SpiOp::TxFifoLevel(TX_FIFO_LEVEL),
                SpiOp::TxNumChar(1),
                SpiOp::ClearDone,
            ],
        );
        self.clear_fifos();
        self.enable();
        proof {
            let c = configure_program(mode, ss_active_pol, d);
            assert(final(self).program() =~= old(self).program() + c);
        }
    }

    /// Empties both FIFOs.
    pub fn clear_fifos(&mut self)
        ensures
            final(self).program() == old(self).program() + clear_fifos_program(),
            final(self).status() == old(self).status(),
            final(self).has_ss() == old(self).has_ss(),
    {
        self.emit(&[SpiOp::ClearTxFifo, SpiOp::ClearRxFifo]);
    }

    /// Bytes in the receive FIFO, as last read.
    pub fn rx_fifo_count(&mut self) -> (r: u8)
        ensures
            r == old(self).status().rx_fifo_cnt,
            *final(self) == *old(self),
    {
        self.status.rx_fifo_cnt
    }

    /// Enables both FIFOs, then the controller.
    pub fn enable(&mut self)
        ensures
            final(self).program() == old(self).program() + enable_program(),
            final(self).status() == old(self).status(),
            final(self).has_ss() == old(self).has_ss(),
    {
        self.emit(&[SpiOp::TxFifoEnable(true), SpiOp::RxFifoEnable(true), SpiOp::Enable(true)]);
    }

    /// Stops any transaction, disables both FIFOs, clears the done flag so
    /// that a stale one is not seen after the next enable, and disables the
    /// controller.
    pub fn disable(&mut self)
        ensures
            final(self).program() == old(self).program() + disable_program(),
            final(self).status() == old(self).status(),
            final(self).has_ss() == old(self).has_ss(),
    {
        self.emit(
            &[
                SpiOp::Start(false),
                SpiOp::TxFifoEnable(false),
                SpiOp::RxFifoEnable(false),
                SpiOp::ClearDone,
                SpiOp::Enable(false),
            ],
        );
    }

    /// Is a transaction still active, as last read?
    pub fn is_busy(&self) -> (r: bool)
        ensures
            r == self.status().busy,
    {
        self.status.busy
    }

    /// Takes slave select out of the controller's hands, for protocols that
    /// drive it by hand: the controller stops driving it and the pin comes
    /// back as a GPIO output.
    pub fn take_ss(&mut self, gpio: &mut GpioRegs) -> (r: Pin<Gpio, Output<PushPull>, SPI0_SS0>)
        requires
            old(self).has_ss(),
        ensures
            final(self).program() == old(self).program() + seq![SpiOp::SsSelect(false)],
            !final(self).has_ss(),
            final(self).status() == old(self).status(),
            *final(gpio) == old(gpio).with_slot(SPI0_SS0 as u32, crate::gpio::AltSlot::Gpio),
    {
        self.emit(&[SpiOp::SsSelect(false)]);
        let mut ss = None;
        std::mem::swap(&mut ss, &mut self.pins.ss);
        match ss {
            Some(pin) => pin.into_mode::<Gpio>(gpio),
            None => {
                proof {
                    assert(false);
                }
                Pin::new()
            },
        }
    }

    /// Gives slave select back to the controller, in alternate function 1,
    /// as a push-pull output idling high.
    pub fn put_ss<AF: AltMode, XM>(&mut self, ss: Pin<AF, XM, SPI0_SS0>, gpio: &mut GpioRegs)
        ensures
            final(self).program() == old(self).program() + seq![SpiOp::SsSelect(true)],
            final(self).has_ss(),
            final(self).status() == old(self).status(),
            *final(gpio) == old(gpio).with_slot(
                SPI0_SS0 as u32,
                crate::gpio::AltSlot::Af1,
            ).push_pull_at(SPI0_SS0 as u32, Level::High),
    {
        let ss_af = ss.into_mode::<AF1>(gpio);
        let ss_elect = ss_af.into_push_pull_output(gpio, Level::High);
        self.pins.ss = Some(ss_elect);
        self.emit(&[SpiOp::SsSelect(true)]);
    }

    /// Sends one byte: waits for an idle bus, then runs a one-character
    /// transaction and waits until the byte has left the FIFO and the done
    /// flag is set.
    pub fn send(&mut self, word: u8)
        ensures
            final(self).program() == old(self).program() + send_program(word),
            final(self).status() == old(self).status(),
            final(self).has_ss() == old(self).has_ss(),
    {
        self.emit(
            &[
                SpiOp::AwaitIdle,
                SpiOp::WriteData(word),
                SpiOp::TxNumChar(1),
                SpiOp::Start(true),
                SpiOp::AwaitTxEmpty,
                SpiOp::AwaitDone,
            ],
        );
    }
}

/// Burst transmission of a block of bytes.
pub trait BurstWrite: Sized {
    /// `after` is `before` with the burst of `data` appended to its program.
    spec fn burst_written(before: Self, after: Self, data: Seq<u8>) -> bool;

    /// Waits for an idle bus, then streams `data` in one transaction. The
    /// block must fit the character-count field.
    fn write_chunk(&mut self, data: &[u8])
        requires
            1 <= data@.len() <= 65535,
        ensures
            Self::burst_written(*old(self), *final(self), data@),
    ;
}

impl BurstWrite for SpiPort<AF1, Spi0, SPI0_SCK, SPI0_MISO, SPI0_MOSI, SPI0_SS0> {
    open spec fn burst_written(before: Self, after: Self, data: Seq<u8>) -> bool {
        &&& after.program() == before.program() + burst_program(data)
        &&& after.status() == before.status()
        &&& after.has_ss() == before.has_ss()
    }

    fn write_chunk(&mut self, data: &[u8]) {
        let burst_len = data.len();
        self.emit(
            &[
                SpiOp::AwaitIdle,
                SpiOp::ClearTxFifo,
                SpiOp::ClearRxFifo,
                SpiOp::TxNumChar(burst_len as u16),
                SpiOp::WriteData(data[0]),
                SpiOp::Start(true),
            ],
        );
        let ghost head = self.program();
        let mut i: usize = 1;
        while i < burst_len
            invariant
                1 <= i <= burst_len,
                burst_len == data@.len(),
                self.program() == head + data_writes(data@.subrange(1, i as int)),
                self.status() == old(self).status(),
                self.has_ss() == old(self).has_ss(),
            decreases burst_len - i,
        {
            self.emit(&[SpiOp::WriteData(data[i])]);
            i += 1;
            assert(data@.subrange(1, i as int) == data@.subrange(1, (i - 1) as int).push(
                data@[i - 1],
            ));
            assert(data_writes(data@.subrange(1, i as int)) =~= data_writes(
                data@.subrange(1, (i - 1) as int),
            ).push(SpiOp::WriteData(data@[i - 1])));
        }
        assert(self.program() =~= old(self).program() + burst_program(data@));
    }
}

} // verus!

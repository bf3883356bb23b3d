//! System clock selection and the clock frequencies the drivers assume.
use vstd::prelude::*;

verus! {

/// High-frequency internal oscillator frequency, in Hz.
pub const HFCLK_FREQ: u32 = 96_000_000;

/// Peripheral clock frequency, in Hz: half the high-frequency clock.
pub const PCLK_FREQ: u32 = HFCLK_FREQ / 2;

/// Low-frequency crystal oscillator frequency, in Hz.
pub const LFCLK_FREQ: u32 = 32_768;

/// The oscillators that can be enabled or chosen as system clock.
#[derive(Clone, Copy, Debug, PartialEq, Eq, Structural)]
pub enum ClkSrc {
    /// 96 MHz internal oscillator.
    Hfio,
    /// 8 kHz nano-ring oscillator; always running.
    Nano,
    /// 32.768 kHz crystal oscillator, fed to the system clock as HFXIN.
    X32k,
}

/// System clock prescaler.
#[derive(Clone, Copy, Debug, PartialEq, Eq, Structural)]
pub enum Div {
    D1,
    D2,
    D4,
    D8,
    D16,
    D32,
    D64,
    D128,
}

/// CLKCN.CLKSEL values.
#[derive(Clone, Copy, Debug, PartialEq, Eq, Structural)]
pub enum ClkSel {
    Hirc,
    NanoRing,
    HfxIn,
}

/// One step of a register program for GCR.CLKCN.
#[derive(Clone, Copy, Debug, PartialEq, Eq, Structural)]
pub enum ClkOp {
    /// CLKCN.X32K_EN.
    X32kEnable(bool),
    /// CLKCN.HIRC_EN.
    HircEnable(bool),
    /// CLKCN.CLKSEL.
    Select(ClkSel),
    /// CLKCN.PSC: divide by `2^code`.
    Prescaler(u8),
    /// Wait until CLKCN.CKRDY reads ready.
    AwaitReady,
}

/// The CLKSEL value that selects `src`.
pub open spec fn clksel_of(src: ClkSrc) -> ClkSel {
    match src {
        ClkSrc::Hfio => ClkSel::Hirc,
        ClkSrc::Nano => ClkSel::NanoRing,
        ClkSrc::X32k => ClkSel::HfxIn,
    }
}

/// The PSC code of `d`: the prescaler divides by `2^code`.
pub open spec fn psc_code(d: Div) -> u8 {
    match d {
        Div::D1 => 0,
        Div::D2 => 1,
        Div::D4 => 2,
        Div::D8 => 3,
        Div::D16 => 4,
        Div::D32 => 5,
        Div::D64 => 6,
        Div::D128 => 7,
    }
}

/// Program of enabling (`on`) or disabling an oscillator. The nano-ring
/// cannot be switched and has an empty program.
pub open spec fn switch_program(src: ClkSrc, on: bool) -> Seq<ClkOp> {
    match src {
        ClkSrc::Hfio => seq![ClkOp::HircEnable(on)],
        ClkSrc::Nano => Seq::empty(),
        ClkSrc::X32k => seq![ClkOp::X32kEnable(on)],
    }
}

/// System clock control. Before the prescaler changes the system clock
/// rate, select the nano-ring or the crystal as system clock.
pub struct Clocks {
    program: Vec<ClkOp>,
}

impl Clocks {
    /// The register program not yet taken.
    pub closed spec fn program(self) -> Seq<ClkOp> {
        self.program@
    }

    pub fn new() -> (r: Self)
        ensures
            r.program() == Seq::<ClkOp>::empty(),
    {
        Clocks { program: Vec::new() }
    }

    /// Hands over the program produced so far, leaving none.
    pub fn take_program(&mut self) -> (r: Vec<ClkOp>)
        ensures
            r@ == old(self).program(),
            final(self).program() == Seq::<ClkOp>::empty(),
    {
        let mut taken: Vec<ClkOp> = Vec::new();
        std::mem::swap(&mut taken, &mut self.program);
        taken
    }

    /// Starts oscillator `clk_src`.
    pub fn enable(&mut self, clk_src: ClkSrc)
        ensures
            final(self).program() == old(self).program() + switch_program(clk_src, true),
    {
        match clk_src {
            ClkSrc::Hfio => self.program.push(ClkOp::HircEnable(true)),
            ClkSrc::Nano => {},
            ClkSrc::X32k => self.program.push(ClkOp::X32kEnable(true)),
        }
        assert(final(self).program() =~= old(self).program() + switch_program(clk_src, true));
    }

    /// Stops oscillator `clk_src`.
    pub fn disable(&mut self, clk_src: ClkSrc)
        ensures
            final(self).program() == old(self).program() + switch_program(clk_src, false),
    {
        match clk_src {
            ClkSrc::Hfio => self.program.push(ClkOp::HircEnable(false)),
            ClkSrc::Nano => {},
            ClkSrc::X32k => self.program.push(ClkOp::X32kEnable(false)),
        }
        assert(final(self).program() =~= old(self).program() + switch_program(clk_src, false));
    }

    /// Selects `clk_src` as system clock and waits until the switch is done.
    pub fn set_sys_osc_source(&mut self, clk_src: ClkSrc)
        ensures
            final(self).program() == old(self).program() + seq![
                ClkOp::Select(clksel_of(clk_src)),
                ClkOp::AwaitReady,
            ],
    {
        let sel = match clk_src {
            ClkSrc::Hfio => ClkSel::Hirc,
            ClkSrc::Nano => ClkSel::NanoRing,
            ClkSrc::X32k => ClkSel::HfxIn,
        };
        self.program.push(ClkOp::Select(sel));
        self.program.push(ClkOp::AwaitReady);
        assert(final(self).program() =~= old(self).program() + seq![
            ClkOp::Select(clksel_of(clk_src)),
            ClkOp::AwaitReady,
        ]);
    }

    /// Sets the system clock prescaler.
    pub fn set_sys_osc_prescaler(&mut self, psc_div: Div)
        ensures
            final(self).program() == old(self).program().push(ClkOp::Prescaler(psc_code(psc_div))),
    {
        let code: u8 = match psc_div {
            Div::D1 => 0,
            Div::D2 => 1,
            Div::D4 => 2,
            Div::D8 => 3,
            Div::D16 => 4,
            Div::D32 => 5,
            Div::D64 => 6,
            Div::D128 => 7,
        };
        self.program.push(ClkOp::Prescaler(code));
    }
}

} // verus!

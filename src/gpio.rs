//! GPIO port 0: typed pins whose role (disconnected, input, output) and
//! alternate function (GPIO, AF1, AF2, AF3) are part of their type.
//!
//! The port's registers are held as a `GpioRegs` image: one bit per pin in
//! each register. Every conversion consumes a pin, updates the image, and
//! hands back the pin in its new role; no pin of another index is touched.
use core::marker::PhantomData;
use vstd::prelude::*;

verus! {

/// Number of GPIO pins on port 0 (TQFN packages: P0.0 to P0.13).
pub const PIN_COUNT: u8 = 14;

/// `x` with bit `i` set to `v`.
pub open spec fn set_bit(x: u32, i: u32, v: bool) -> u32 {
    if v {
        x | (1u32 << i)
    } else {
        x & !(1u32 << i)
    }
}

/// Bit `i` of `x`.
pub open spec fn bit_of(x: u32, i: u32) -> bool {
    x & (1u32 << i) != 0
}

/// Setting a bit leaves every other bit as it was, and the bit itself reads
/// back as written.
pub proof fn lemma_set_bit_reads(x: u32, i: u32, v: bool, j: u32)
    requires
        i < 32,
        j < 32,
    ensures
        bit_of(set_bit(x, i, v), j) == if i == j {
            v
        } else {
            bit_of(x, j)
        },
{
    if v {
        assert((x | (1u32 << i)) & (1u32 << j) != 0 <==> (i == j || x & (1u32 << j) != 0))
            by (bit_vector)
            requires
                i < 32,
                j < 32,
        ;
    } else {
        assert((x & !(1u32 << i)) & (1u32 << j) != 0 <==> (i != j && x & (1u32 << j) != 0))
            by (bit_vector)
            requires
                i < 32,
                j < 32,
        ;
    }
}

/// Writing a bit twice keeps only the second value.
pub proof fn lemma_set_bit_twice(x: u32, i: u32, a: bool, b: bool)
    requires
        i < 32,
    ensures
        set_bit(set_bit(x, i, a), i, b) == set_bit(x, i, b),
{
    if a {
        if b {
            assert((x | (1u32 << i)) | (1u32 << i) == x | (1u32 << i)) by (bit_vector);
        } else {
            assert((x | (1u32 << i)) & !(1u32 << i) == x & !(1u32 << i)) by (bit_vector);
        }
    } else {
        if b {
            assert((x & !(1u32 << i)) | (1u32 << i) == x | (1u32 << i)) by (bit_vector);
        } else {
            assert((x & !(1u32 << i)) & !(1u32 << i) == x & !(1u32 << i)) by (bit_vector);
        }
    }
}

/// The alternate-function slot of a pin, as selected by the three
/// function-select bit planes EN, EN1 and EN2.
#[derive(Clone, Copy, Debug, PartialEq, Eq, Structural)]
pub enum AltSlot {
    Gpio,
    Af1,
    Af2,
    Af3,
}

impl AltSlot {
    /// The pin's bit in EN for this slot.
    pub open spec fn en_bit(self) -> bool {
        self == AltSlot::Gpio || self == AltSlot::Af3
    }

    /// The pin's bit in EN1 for this slot.
    pub open spec fn en1_bit(self) -> bool {
        self == AltSlot::Af2 || self == AltSlot::Af3
    }
}

/// Image of the GPIO port 0 registers that the driver reads and writes.
/// Bit `i` of each field belongs to pin `i`.
#[derive(Clone, Copy, Debug, PartialEq, Eq, Structural)]
pub struct GpioRegs {
    /// GPIO_EN: function-select plane 0.
    pub en: u32,
    /// GPIO_EN1: function-select plane 1.
    pub en1: u32,
    /// GPIO_EN2: function-select plane 2.
    pub en2: u32,
    /// GPIO_OUT_EN: output driver enable.
    pub out_en: u32,
    /// GPIO_OUT: driven level.
    pub out: u32,
    /// GPIO_IN: level seen on the pad.
    pub input: u32,
    /// GPIO_PAD_CFG1: pull resistor enable.
    pub pad_cfg1: u32,
    /// GPIO_PS: pull direction, 1 for pull-up.
    pub ps: u32,
    /// GPIO_DS: drive strength, low bit.
    pub ds: u32,
    /// GPIO_DS1: drive strength, high bit.
    pub ds1: u32,
}

impl GpioRegs {
    /// The slot that the function-select planes give pin `i`, or `None` for a
    /// combination with EN2 set, which this driver never writes.
    pub open spec fn slot_at(self, i: u32) -> Option<AltSlot> {
        if bit_of(self.en2, i) {
            None
        } else if bit_of(self.en, i) {
            if bit_of(self.en1, i) {
                Some(AltSlot::Af3)
            } else {
                Some(AltSlot::Gpio)
            }
        } else if bit_of(self.en1, i) {
            Some(AltSlot::Af2)
        } else {
            Some(AltSlot::Af1)
        }
    }

    /// The image after pin `i` is switched to slot `s`.
    pub open spec fn with_slot(self, i: u32, s: AltSlot) -> GpioRegs {
        GpioRegs {
            en: set_bit(self.en, i, s.en_bit()),
            en1: set_bit(self.en1, i, s.en1_bit()),
            en2: set_bit(self.en2, i, false),
            ..self
        }
    }

    /// The image after pin `i` becomes a floating input: output driver off,
    /// pull resistor off.
    pub open spec fn floating_at(self, i: u32) -> GpioRegs {
        GpioRegs {
            out_en: set_bit(self.out_en, i, false),
            pad_cfg1: set_bit(self.pad_cfg1, i, false),
            ..self
        }
    }

    /// The image after pin `i` becomes a pulled input, towards the supply when
    /// `up` holds and towards ground otherwise.
    pub open spec fn pulled_at(self, i: u32, up: bool) -> GpioRegs {
        let f = self.floating_at(i);
        GpioRegs { ps: set_bit(f.ps, i, up), pad_cfg1: set_bit(f.pad_cfg1, i, true), ..f }
    }

    /// The image after pin `i` is driven to `level`.
    pub open spec fn level_at(self, i: u32, level: Level) -> GpioRegs {
        GpioRegs { out: set_bit(self.out, i, level == Level::High), ..self }
    }

    /// The image after pin `i` becomes a push-pull output driving `level`.
    pub open spec fn push_pull_at(self, i: u32, level: Level) -> GpioRegs {
        let l = self.level_at(i, level);
        GpioRegs { out_en: set_bit(l.out_en, i, true), ..l }
    }

    /// The image after pin `i` is given drive strength `d`.
    pub open spec fn drive_at(self, i: u32, d: DriveStrength) -> GpioRegs {
        GpioRegs {
            ds: set_bit(self.ds, i, d.ds_bit()),
            ds1: set_bit(self.ds1, i, d.ds1_bit()),
            ..self
        }
    }
}

/// Selecting a slot for a pin makes the function-select planes decode to that
/// slot, whatever they held before, and leaves every other pin's slot alone.
pub proof fn lemma_with_slot_selects(r: GpioRegs, i: u32, s: AltSlot, j: u32)
    requires
        i < 32,
        j < 32,
    ensures
        r.with_slot(i, s).slot_at(i) == Some(s),
        j != i ==> r.with_slot(i, s).slot_at(j) == r.slot_at(j),
{
    lemma_set_bit_reads(r.en, i, s.en_bit(), i);
    lemma_set_bit_reads(r.en1, i, s.en1_bit(), i);
    lemma_set_bit_reads(r.en2, i, false, i);
    lemma_set_bit_reads(r.en, i, s.en_bit(), j);
    lemma_set_bit_reads(r.en1, i, s.en1_bit(), j);
    lemma_set_bit_reads(r.en2, i, false, j);
}

/// Making a pin a floating input a second time changes nothing.
pub proof fn lemma_floating_input_idempotent(r: GpioRegs, i: u32)
    requires
        i < 32,
    ensures
        r.floating_at(i).floating_at(i) == r.floating_at(i),
{
    lemma_set_bit_twice(r.out_en, i, false, false);
    lemma_set_bit_twice(r.pad_cfg1, i, false, false);
}

/// A second drive-strength setting replaces the first: the image holds the
/// second level only.
pub proof fn lemma_drive_strength_replaces(r: GpioRegs, i: u32, a: DriveStrength, b: DriveStrength)
    requires
        i < 32,
    ensures
        r.drive_at(i, a).drive_at(i, b) == r.drive_at(i, b),
{
    lemma_set_bit_twice(r.ds, i, a.ds_bit(), b.ds_bit());
    lemma_set_bit_twice(r.ds1, i, a.ds1_bit(), b.ds1_bit());
}

/// Represents a digital input or output level.
#[derive(Clone, Copy, Debug, PartialEq, Eq, Structural)]
pub enum Level {
    Low,
    High,
}

/// Output drive strength of a pin.
#[derive(Clone, Copy, Debug, PartialEq, Eq, Structural)]
pub enum DriveStrength {
    OneMilliamps,
    TwoMilliamps,
    FourMilliamps,
    SixMilliamps,
}

/// The two-bit hardware code of a drive strength: `ds1` goes to GPIO_DS1,
/// `ds` to GPIO_DS.
pub struct DriveStrengthSetting {
    pub ds1: bool,
    pub ds: bool,
}

impl DriveStrength {
    pub open spec fn ds_bit(self) -> bool {
        self == DriveStrength::TwoMilliamps || self == DriveStrength::SixMilliamps
    }

    pub open spec fn ds1_bit(self) -> bool {
        self == DriveStrength::FourMilliamps || self == DriveStrength::SixMilliamps
    }

    pub fn get_setting(self) -> (r: DriveStrengthSetting)
        ensures
            r.ds == self.ds_bit(),
            r.ds1 == self.ds1_bit(),
    {
        match self {
            DriveStrength::OneMilliamps => DriveStrengthSetting { ds1: false, ds: false },
            DriveStrength::TwoMilliamps => DriveStrengthSetting { ds1: false, ds: true },
            DriveStrength::FourMilliamps => DriveStrengthSetting { ds1: true, ds: false },
            DriveStrength::SixMilliamps => DriveStrengthSetting { ds1: true, ds: true },
        }
    }
}

/// Disconnected pin in input mode (role at reset).
pub struct Disconnected;

/// GPIO function (alternate-function type state).
pub struct Gpio;

/// Alternate function 1 (type state).
pub struct AF1;

/// Alternate function 2 (type state).
pub struct AF2;

/// Alternate function 3 (type state).
pub struct AF3;

/// The alternate-function type states, each with the slot it selects.
pub trait AltMode {
    spec fn spec_slot() -> AltSlot;

    fn slot() -> (r: AltSlot)
        ensures
            r == Self::spec_slot(),
    ;
}

impl AltMode for Gpio {
    open spec fn spec_slot() -> AltSlot {
        AltSlot::Gpio
    }

    fn slot() -> (r: AltSlot) {
        AltSlot::Gpio
    }
}

impl AltMode for AF1 {
    open spec fn spec_slot() -> AltSlot {
        AltSlot::Af1
    }

    fn slot() -> (r: AltSlot) {
        AltSlot::Af1
    }
}

impl AltMode for AF2 {
    open spec fn spec_slot() -> AltSlot {
        AltSlot::Af2
    }

    fn slot() -> (r: AltSlot) {
        AltSlot::Af2
    }
}

impl AltMode for AF3 {
    open spec fn spec_slot() -> AltSlot {
        AltSlot::Af3
    }

    fn slot() -> (r: AltSlot) {
        AltSlot::Af3
    }
}

/// Input mode (type state).
pub struct Input<MODE> {
    _mode: PhantomData<MODE>,
}

/// Floating input (type state).
pub struct Floating;

/// Pulled down input (type state).
pub struct PullDown;

/// Pulled up input (type state).
pub struct PullUp;

/// Output mode (type state).
pub struct Output<MODE> {
    _mode: PhantomData<MODE>,
}

/// Push pull output (type state).
pub struct PushPull;

/// Open drain output (type state). No conversion produces it: the port's
/// pads are driven push-pull by this driver, and the state is kept only so
/// that drivers written against it still name a type.
pub struct OpenDrain;

/// Pin `IDX` of port 0, in alternate function `AF` and role `IO`.
pub struct Pin<AF: AltMode, IO, const IDX: u8> {
    _af: PhantomData<AF>,
    _io: PhantomData<IO>,
}

/// Programs the function-select planes for a pin's alternate function.
pub trait AltFn: Sized {
    /// The image after `self`'s slot has been selected in `regs`.
    spec fn mode_regs(&self, regs: GpioRegs) -> GpioRegs;

    fn set_mode(&mut self, regs: &mut GpioRegs)
        ensures
            *final(regs) == old(self).mode_regs(*old(regs)),
    ;
}

impl<AF: AltMode, IO, const IDX: u8> AltFn for Pin<AF, IO, IDX> {
    open spec fn mode_regs(&self, regs: GpioRegs) -> GpioRegs {
        regs.with_slot(IDX as u32, AF::spec_slot())
    }

    fn set_mode(&mut self, regs: &mut GpioRegs) {
        let m = self.mask();
        let slot = AF::slot();
        match slot {
            AltSlot::Gpio => {
                regs.en = regs.en | m;
                regs.en1 = regs.en1 & !m;
                regs.en2 = regs.en2 & !m;
            },
            AltSlot::Af1 => {
                regs.en = regs.en & !m;
                regs.en1 = regs.en1 & !m;
                regs.en2 = regs.en2 & !m;
            },
            AltSlot::Af2 => {
                regs.en = regs.en & !m;
                regs.en1 = regs.en1 | m;
                regs.en2 = regs.en2 & !m;
            },
            AltSlot::Af3 => {
                regs.en = regs.en | m;
                regs.en1 = regs.en1 | m;
                regs.en2 = regs.en2 & !m;
            },
        }
    }
}

impl<AF: AltMode, IO, const IDX: u8> Pin<AF, IO, IDX> {
    #[verifier::type_invariant]
    spec fn inv(self) -> bool {
        IDX < PIN_COUNT
    }

    /// Takes pin `IDX`. The caller holds no other handle of this pin.
    pub fn new() -> (r: Self)
        requires
            IDX < PIN_COUNT,
    {
        Pin { _af: PhantomData, _io: PhantomData }
    }

    #[inline]
    fn pin(&self) -> (r: u8)
        ensures
            r == IDX,
            r < PIN_COUNT,
    {
        proof {
            use_type_invariant(self);
        }
        IDX
    }

    fn mask(&self) -> (r: u32)
        ensures
            r == 1u32 << (IDX as u32),
            IDX < PIN_COUNT,
    {
        proof {
            use_type_invariant(self);
        }
        1u32 << (IDX as u32)
    }

    /// The pin's index within the port.
    pub fn index(&self) -> (r: u8)
        ensures
            r == IDX,
            r < PIN_COUNT,
    {
        self.pin()
    }

    /// Selects alternate function `M` for this pin.
    pub fn into_mode<M: AltMode>(self, regs: &mut GpioRegs) -> (r: Pin<M, IO, IDX>)
        ensures
            *final(regs) == old(regs).with_slot(IDX as u32, M::spec_slot()),
    {
        proof {
            use_type_invariant(&self);
        }
        let mut pin: Pin<M, IO, IDX> = Pin::new();
        pin.set_mode(regs);
        pin
    }

    /// Turns the output driver off and clears the pull resistor.
    pub fn into_floating_input(self, regs: &mut GpioRegs) -> (r: Pin<AF, Input<Floating>, IDX>)
        ensures
            *final(regs) == old(regs).floating_at(IDX as u32),
    {
        let m = self.mask();
        regs.out_en = regs.out_en & !m;
        regs.pad_cfg1 = regs.pad_cfg1 & !m;
        Pin::new()
    }

    /// Floating input, then pull direction up, then the pull enabled.
    pub fn into_pullup_input(self, regs: &mut GpioRegs) -> (r: Pin<AF, Input<PullUp>, IDX>)
        ensures
            *final(regs) == old(regs).pulled_at(IDX as u32, true),
    {
        let pin = self.into_floating_input(regs);
        let m = pin.mask();
        regs.ps = regs.ps | m;
        regs.pad_cfg1 = regs.pad_cfg1 | m;
        Pin::new()
    }

    /// Floating input, then pull direction down, then the pull enabled.
    pub fn into_pulldown_input(self, regs: &mut GpioRegs) -> (r: Pin<AF, Input<PullDown>, IDX>)
        ensures
            *final(regs) == old(regs).pulled_at(IDX as u32, false),
    {
        let pin = self.into_floating_input(regs);
        let m = pin.mask();
        regs.ps = regs.ps & !m;
        regs.pad_cfg1 = regs.pad_cfg1 | m;
        Pin::new()
    }

    /// Stakes out `initial_output` on the output register, then enables the
    /// output driver, so the pad never shows the opposite level.
    pub fn into_push_pull_output(self, regs: &mut GpioRegs, initial_output: Level) -> (r: Pin<
        AF,
        Output<PushPull>,
        IDX,
    >)
        ensures
            *final(regs) == old(regs).push_pull_at(IDX as u32, initial_output),
    {
        proof {
            use_type_invariant(&self);
        }
        let mut pin: Pin<AF, Output<PushPull>, IDX> = Pin::new();
        match initial_output {
            Level::Low => pin.set_low(regs),
            Level::High => pin.set_high(regs),
        }
        let m = pin.mask();
        regs.out_en = regs.out_en | m;
        pin
    }

    /// Forgets the index at type level, keeping the alternate function and
    /// the role.
    pub fn degrade(self) -> (r: ErasedPin<AF, IO>)
        ensures
            r.index() == IDX,
    {
        let index = self.pin();
        ErasedPin { index, _af: PhantomData, _io: PhantomData }
    }
}

impl<AF: AltMode, MODE, const IDX: u8> Pin<AF, Input<MODE>, IDX> {
    /// Is the input pin high?
    pub fn is_high(&self, regs: &GpioRegs) -> (r: bool)
        ensures
            r == bit_of(regs.input, IDX as u32),
    {
        !self.is_low(regs)
    }

    /// Is the input pin low?
    pub fn is_low(&self, regs: &GpioRegs) -> (r: bool)
        ensures
            r == !bit_of(regs.input, IDX as u32),
    {
        regs.input & self.mask() == 0
    }
}

impl<AF: AltMode, MODE, const IDX: u8> Pin<AF, Output<MODE>, IDX> {
    /// Drives the pin low.
    pub fn set_low(&mut self, regs: &mut GpioRegs)
        ensures
            *final(regs) == old(regs).level_at(IDX as u32, Level::Low),
    {
        regs.out = regs.out & !self.mask();
    }

    /// Drives the pin high.
    pub fn set_high(&mut self, regs: &mut GpioRegs)
        ensures
            *final(regs) == old(regs).level_at(IDX as u32, Level::High),
    {
        regs.out = regs.out | self.mask();
    }

    /// Is the output pin set as high?
    pub fn is_set_high(&self, regs: &GpioRegs) -> (r: bool)
        ensures
            r == bit_of(regs.out, IDX as u32),
    {
        !self.is_set_low(regs)
    }

    /// Is the output pin set as low?
    pub fn is_set_low(&self, regs: &GpioRegs) -> (r: bool)
        ensures
            r == !bit_of(regs.out, IDX as u32),
    {
        regs.out & self.mask() == 0
    }

    /// Sets the pin's drive strength, replacing the previous one.
    pub fn set_drive_strength(&mut self, regs: &mut GpioRegs, drive_strength: DriveStrength)
        ensures
            *final(regs) == old(regs).drive_at(IDX as u32, drive_strength),
    {
        let ds_settings = drive_strength.get_setting();
        let m = self.mask();
        let ds = regs.ds & !m;
        let ds1 = regs.ds1 & !m;
        regs.ds = if ds_settings.ds {
            ds | m
        } else {
            ds
        };
        regs.ds1 = if ds_settings.ds1 {
            ds1 | m
        } else {
            ds1
        };
        proof {
            lemma_set_bit_twice(old(regs).ds, IDX as u32, false, ds_settings.ds);
            lemma_set_bit_twice(old(regs).ds1, IDX as u32, false, ds_settings.ds1);
        }
    }
}

/// A pin whose index is held as a value rather than in its type. It keeps
/// its alternate function and role.
pub struct ErasedPin<AF: AltMode, IO> {
    index: u8,
    _af: PhantomData<AF>,
    _io: PhantomData<IO>,
}

impl<AF: AltMode, IO> ErasedPin<AF, IO> {
    #[verifier::type_invariant]
    spec fn inv(self) -> bool {
        self.index < PIN_COUNT
    }

    pub closed spec fn index(self) -> u8 {
        self.index
    }

    /// The pin's index within the port.
    pub fn pin(&self) -> (r: u8)
        ensures
            r == self.index(),
            r < PIN_COUNT,
    {
        proof {
            use_type_invariant(self);
        }
        self.index
    }

    /// Gives back the typed pin `IDX`, or this pin unchanged when it is
    /// another one.
    pub fn restore<const IDX: u8>(self) -> (r: Result<Pin<AF, IO, IDX>, ErasedPin<AF, IO>>)
        ensures
            r is Ok <==> self.index() == IDX,
            r matches Err(e) ==> e.index() == self.index(),
    {
        proof {
            use_type_invariant(&self);
        }
        if self.index == IDX {
            Ok(Pin::new())
        } else {
            Err(self)
        }
    }
}

impl<AF: AltMode, MODE> ErasedPin<AF, Input<MODE>> {
    /// Is the input pin high?
    pub fn is_high(&self, regs: &GpioRegs) -> (r: bool)
        ensures
            r == bit_of(regs.input, self.index() as u32),
    {
        let i = self.pin();
        regs.input & (1u32 << (i as u32)) != 0
    }
}

impl<AF: AltMode, MODE> ErasedPin<AF, Output<MODE>> {
    /// Is the output pin set as high?
    pub fn is_set_high(&self, regs: &GpioRegs) -> (r: bool)
        ensures
            r == bit_of(regs.out, self.index() as u32),
    {
        let i = self.pin();
        regs.out & (1u32 << (i as u32)) != 0
    }
}

/// A pin taken apart and put back together reads the same levels as before:
/// the restored pin is the same physical pin, with the same role and
/// alternate function.
pub proof fn lemma_degrade_restore<AF: AltMode, IO, const IDX: u8>(
    e: ErasedPin<AF, IO>,
    regs: GpioRegs,
)
    requires
        e.index() == IDX,
    ensures
        bit_of(regs.input, e.index() as u32) == bit_of(regs.input, IDX as u32),
        bit_of(regs.out, e.index() as u32) == bit_of(regs.out, IDX as u32),
        regs.slot_at(e.index() as u32) == regs.slot_at(IDX as u32),
{
}

/// The pins of port 0, each in its reset role.
pub struct Parts {
    /// Pin P0.0
    pub p0_00: Pin<Gpio, Disconnected, 0>,
    /// Pin P0.1
    pub p0_01: Pin<Gpio, Disconnected, 1>,
    /// Pin P0.2
    pub p0_02: Pin<Gpio, Disconnected, 2>,
    /// Pin P0.3
    pub p0_03: Pin<Gpio, Disconnected, 3>,
    /// Pin P0.4
    pub p0_04: Pin<Gpio, Disconnected, 4>,
    /// Pin P0.5
    pub p0_05: Pin<Gpio, Disconnected, 5>,
    /// Pin P0.6
    pub p0_06: Pin<Gpio, Disconnected, 6>,
    /// Pin P0.7
    pub p0_07: Pin<Gpio, Disconnected, 7>,
    /// Pin P0.8
    pub p0_08: Pin<Gpio, Disconnected, 8>,
    /// Pin P0.9
    pub p0_09: Pin<Gpio, Disconnected, 9>,
    /// Pin P0.10
    pub p0_10: Pin<Gpio, Disconnected, 10>,
    /// Pin P0.11
    pub p0_11: Pin<Gpio, Disconnected, 11>,
    /// Pin P0.12
    pub p0_12: Pin<Gpio, Disconnected, 12>,
    /// Pin P0.13
    pub p0_13: Pin<Gpio, Disconnected, 13>,
}

impl Parts {
    /// Hands out every pin of the port once.
    pub fn new() -> (r: Self) {
        Parts {
            p0_00: Pin::new(),
            p0_01: Pin::new(),
            p0_02: Pin::new(),
            p0_03: Pin::new(),
            p0_04: Pin::new(),
            p0_05: Pin::new(),
            p0_06: Pin::new(),
            p0_07: Pin::new(),
            p0_08: Pin::new(),
            p0_09: Pin::new(),
            p0_10: Pin::new(),
            p0_11: Pin::new(),
            p0_12: Pin::new(),
            p0_13: Pin::new(),
        }
    }
}

} // verus!

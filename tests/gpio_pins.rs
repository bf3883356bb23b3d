use max32660_hal::gpio::{
    Disconnected, DriveStrength, Gpio, GpioRegs, Level, Output, Parts, Pin, PushPull, AF1, AF2,
    AF3,
};

fn zero_regs() -> GpioRegs {
    GpioRegs {
        en: 0,
        en1: 0,
        en2: 0,
        out_en: 0,
        out: 0,
        input: 0,
        pad_cfg1: 0,
        ps: 0,
        ds: 0,
        ds1: 0,
    }
}

fn bit(x: u32, i: u32) -> bool {
    x & (1 << i) != 0
}

#[test]
fn into_mode_af1_clears_all_select_planes() {
    let mut regs = zero_regs();
    let pin: Pin<Gpio, Disconnected, 3> = Pin::new();
    let pin = pin.into_push_pull_output(&mut regs, Level::Low);
    // Start from every plane set, and from the GPIO pattern.
    regs.en = 0xFFFF_FFFF;
    regs.en1 = 0xFFFF_FFFF;
    regs.en2 = 0xFFFF_FFFF;
    let pin = pin.into_mode::<AF1>(&mut regs);
    assert!(!bit(regs.en, 3));
    assert!(!bit(regs.en1, 3));
    assert!(!bit(regs.en2, 3));
    assert_eq!(regs.en, 0xFFFF_FFF7);
    assert_eq!(regs.en1, 0xFFFF_FFF7);
    assert_eq!(regs.en2, 0xFFFF_FFF7);
    // Output role is untouched by the function change.
    assert!(bit(regs.out_en, 3));
    let pin = pin.into_mode::<Gpio>(&mut regs);
    let _pin: Pin<AF1, Output<PushPull>, 3> = pin.into_mode::<AF1>(&mut regs);
    assert!(!bit(regs.en, 3) && !bit(regs.en1, 3) && !bit(regs.en2, 3));
}

#[test]
fn into_mode_patterns_for_each_function() {
    let mut regs = zero_regs();
    let pin: Pin<AF1, Disconnected, 5> = Pin::new();
    let pin = pin.into_mode::<Gpio>(&mut regs);
    assert_eq!((regs.en, regs.en1, regs.en2), (1 << 5, 0, 0));
    let pin = pin.into_mode::<AF2>(&mut regs);
    assert_eq!((regs.en, regs.en1, regs.en2), (0, 1 << 5, 0));
    let _pin = pin.into_mode::<AF3>(&mut regs);
    assert_eq!((regs.en, regs.en1, regs.en2), (1 << 5, 1 << 5, 0));
}

#[test]
fn floating_input_twice_is_once() {
    let mut regs = zero_regs();
    regs.out_en = 0xFF;
    regs.pad_cfg1 = 0xF0;
    regs.ps = 0x10;
    let pin: Pin<Gpio, Disconnected, 4> = Pin::new();
    let pin = pin.into_floating_input(&mut regs);
    let once = regs;
    let _pin = pin.into_floating_input(&mut regs);
    assert_eq!(regs, once);
    assert_eq!(regs.out_en, 0xEF);
    assert_eq!(regs.pad_cfg1, 0xE0);
    assert_eq!(regs.ps, 0x10);
}

#[test]
fn pull_inputs_set_direction_and_enable() {
    let mut regs = zero_regs();
    regs.out_en = 1 << 2;
    let pin: Pin<Gpio, Disconnected, 2> = Pin::new();
    let pin = pin.into_pullup_input(&mut regs);
    assert_eq!(regs.out_en, 0);
    assert_eq!(regs.ps, 1 << 2);
    assert_eq!(regs.pad_cfg1, 1 << 2);
    let _pin = pin.into_pulldown_input(&mut regs);
    assert_eq!(regs.ps, 0);
    assert_eq!(regs.pad_cfg1, 1 << 2);
}

#[test]
fn push_pull_output_drives_initial_level() {
    let mut regs = zero_regs();
    let pin: Pin<Gpio, Disconnected, 9> = Pin::new();
    let mut pin = pin.into_push_pull_output(&mut regs, Level::High);
    assert_eq!(regs.out_en, 1 << 9);
    assert_eq!(regs.out, 1 << 9);
    assert!(pin.is_set_high(&regs));
    pin.set_low(&mut regs);
    assert!(pin.is_set_low(&regs));
    assert_eq!(regs.out, 0);
    pin.set_high(&mut regs);
    assert!(pin.is_set_high(&regs));
}

#[test]
fn input_reads_pad_level() {
    let mut regs = zero_regs();
    let pin: Pin<Gpio, Disconnected, 1> = Pin::new();
    let pin = pin.into_floating_input(&mut regs);
    regs.input = 1 << 1;
    assert!(pin.is_high(&regs));
    assert!(!pin.is_low(&regs));
    regs.input = !(1 << 1);
    assert!(pin.is_low(&regs));
}

#[test]
fn drive_strength_second_setting_replaces_first() {
    let mut regs = zero_regs();
    let pin: Pin<Gpio, Disconnected, 6> = Pin::new();
    let mut pin = pin.into_push_pull_output(&mut regs, Level::Low);
    pin.set_drive_strength(&mut regs, DriveStrength::SixMilliamps);
    assert_eq!((regs.ds1, regs.ds), (1 << 6, 1 << 6));
    pin.set_drive_strength(&mut regs, DriveStrength::TwoMilliamps);
    assert_eq!((regs.ds1, regs.ds), (0, 1 << 6));
    pin.set_drive_strength(&mut regs, DriveStrength::FourMilliamps);
    assert_eq!((regs.ds1, regs.ds), (1 << 6, 0));
    pin.set_drive_strength(&mut regs, DriveStrength::OneMilliamps);
    assert_eq!((regs.ds1, regs.ds), (0, 0));
}

#[test]
fn drive_strength_leaves_other_pins() {
    let mut regs = zero_regs();
    regs.ds = 0b1010;
    regs.ds1 = 0b0101;
    let pin: Pin<Gpio, Disconnected, 8> = Pin::new();
    let mut pin = pin.into_push_pull_output(&mut regs, Level::Low);
    pin.set_drive_strength(&mut regs, DriveStrength::FourMilliamps);
    assert_eq!(regs.ds, 0b1010);
    assert_eq!(regs.ds1, 0b0101 | (1 << 8));
}

#[test]
fn drive_strength_codes() {
    let s = DriveStrength::OneMilliamps.get_setting();
    assert_eq!((s.ds1, s.ds), (false, false));
    let s = DriveStrength::TwoMilliamps.get_setting();
    assert_eq!((s.ds1, s.ds), (false, true));
    let s = DriveStrength::FourMilliamps.get_setting();
    assert_eq!((s.ds1, s.ds), (true, false));
    let s = DriveStrength::SixMilliamps.get_setting();
    assert_eq!((s.ds1, s.ds), (true, true));
}

#[test]
fn degrade_and_restore_reads_the_same() {
    let mut regs = zero_regs();
    let pin: Pin<Gpio, Disconnected, 12> = Pin::new();
    let pin = pin.into_push_pull_output(&mut regs, Level::High);
    let before = pin.is_set_high(&regs);
    let erased = pin.degrade();
    assert_eq!(erased.pin(), 12);
    assert_eq!(erased.is_set_high(&regs), before);
    let restored = erased.restore::<12>().ok().expect("same pin");
    assert_eq!(restored.is_set_high(&regs), before);
    assert_eq!(restored.index(), 12);

    let input: Pin<Gpio, Disconnected, 0> = Pin::new();
    let input = input.into_floating_input(&mut regs);
    regs.input = 1;
    let erased = input.degrade();
    assert!(erased.is_high(&regs));
    let restored = erased.restore::<0>().ok().expect("same pin");
    assert!(restored.is_high(&regs));
}

#[test]
fn restore_as_another_pin_fails() {
    let pin: Pin<Gpio, Disconnected, 12> = Pin::new();
    let erased = pin.degrade();
    match erased.restore::<11>() {
        Ok(_) => panic!("pin 12 restored as pin 11"),
        Err(back) => assert_eq!(back.pin(), 12),
    }
}

#[test]
fn parts_hand_out_each_pin() {
    let parts = Parts::new();
    assert_eq!(parts.p0_00.index(), 0);
    assert_eq!(parts.p0_07.index(), 7);
    assert_eq!(parts.p0_13.index(), 13);
}

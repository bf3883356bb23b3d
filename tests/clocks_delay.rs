use max32660_hal::clocks::{ClkOp, ClkSel, ClkSrc, Clocks, Div, HFCLK_FREQ, LFCLK_FREQ, PCLK_FREQ};
use max32660_hal::delay::{reload_chunks, MAX_RVR};

#[test]
fn clock_constants() {
    assert_eq!(HFCLK_FREQ, 96_000_000);
    assert_eq!(PCLK_FREQ, 48_000_000);
    assert_eq!(LFCLK_FREQ, 32_768);
}

#[test]
fn oscillator_switching() {
    let mut clocks = Clocks::new();
    clocks.enable(ClkSrc::Hfio);
    clocks.enable(ClkSrc::Nano);
    clocks.enable(ClkSrc::X32k);
    clocks.disable(ClkSrc::Hfio);
    clocks.disable(ClkSrc::Nano);
    clocks.disable(ClkSrc::X32k);
    assert_eq!(
        clocks.take_program(),
        vec![
            ClkOp::HircEnable(true),
            ClkOp::X32kEnable(true),
            ClkOp::HircEnable(false),
            ClkOp::X32kEnable(false),
        ]
    );
}

#[test]
fn source_selection_waits_for_ready() {
    let mut clocks = Clocks::new();
    clocks.set_sys_osc_source(ClkSrc::Nano);
    clocks.set_sys_osc_source(ClkSrc::X32k);
    clocks.set_sys_osc_source(ClkSrc::Hfio);
    assert_eq!(
        clocks.take_program(),
        vec![
            ClkOp::Select(ClkSel::NanoRing),
            ClkOp::AwaitReady,
            ClkOp::Select(ClkSel::HfxIn),
            ClkOp::AwaitReady,
            ClkOp::Select(ClkSel::Hirc),
            ClkOp::AwaitReady,
        ]
    );
}

#[test]
fn prescaler_codes() {
    let mut clocks = Clocks::new();
    for d in [Div::D1, Div::D2, Div::D4, Div::D8, Div::D16, Div::D32, Div::D64, Div::D128] {
        clocks.set_sys_osc_prescaler(d);
    }
    let codes: Vec<ClkOp> = (0u8..8).map(ClkOp::Prescaler).collect();
    assert_eq!(clocks.take_program(), codes);
}

#[test]
fn reloads_for_short_delay() {
    assert_eq!(reload_chunks(1_000), vec![96_000]);
    assert_eq!(reload_chunks(1), vec![96]);
}

#[test]
fn reloads_for_zero_delay() {
    assert!(reload_chunks(0).is_empty());
}

#[test]
fn reloads_for_long_delay_split_at_max() {
    // 1 s = 96_000_000 ticks = 5 full reloads and the rest.
    let r = reload_chunks(1_000_000);
    assert_eq!(r.len(), 6);
    assert!(r[..5].iter().all(|&x| x == MAX_RVR));
    assert_eq!(r[5], 96_000_000 - 5 * MAX_RVR);
    assert_eq!(r.iter().map(|&x| x as u64).sum::<u64>(), 96_000_000);
}

#[test]
fn reloads_exactly_max() {
    // 174_762 us * 96 = 16_777_152 < MAX_RVR; one full reload needs 16_777_215 ticks.
    let r = reload_chunks(174_763);
    assert_eq!(r, vec![MAX_RVR, 174_763 * 96 - MAX_RVR]);
}

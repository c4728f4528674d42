use clock_modes::clock::{ClockConfig, ClockSource, ConfigFault, DerivedClock, PllSource};
use clock_modes::mode::ClockMode;
use clock_modes::tree::{
    clock_from_readback, default_config, settled_latency, trace_prescaler, ApplyError, ClockReadback,
    ClockTreeController, ControllerPhase, HwOp,
};

fn readback_80mhz() -> ClockReadback {
    ClockReadback { sws: 3, pllsrc: 2, plln: 10, pllr_bits: 0, msi_range: 6 }
}

#[test]
fn reset_writes_every_default() {
    let mut c = ClockTreeController::new();
    let ops = c.reset();
    assert_eq!(
        ops,
        vec![
            HwOp::ResetRcc,
            HwOp::ResetLse,
            HwOp::ResetPll,
            HwOp::ResetMsi,
            HwOp::ResetHsi16,
            HwOp::SetTracePrescaler(33),
        ]
    );
    assert_eq!(c.phase, ControllerPhase::Idle);
    assert_eq!(c.target, default_config());
}

#[test]
fn apply_msi_mode_orders_writes() {
    let mut c = ClockTreeController::new();
    let ops = c.apply(&ClockMode::Medium48MHz.config()).unwrap();
    assert_eq!(
        ops,
        vec![
            HwOp::SetFlashLatency(5),
            HwOp::SetApb1Prescaler(0b110),
            HwOp::StartLse,
            HwOp::StartMsi(11),
            HwOp::SelectSysClock(0),
        ]
    );
    assert_eq!(c.phase, ControllerPhase::Configuring);
}

#[test]
fn apply_hsi16_mode_starts_hsi16() {
    let mut c = ClockTreeController::new();
    let ops = c.apply(&ClockMode::Slow16MHz.config()).unwrap();
    assert_eq!(
        ops,
        vec![
            HwOp::SetFlashLatency(5),
            HwOp::SetApb1Prescaler(0b110),
            HwOp::StartLse,
            HwOp::StartMsi(6),
            HwOp::StartHsi16,
            HwOp::SelectSysClock(1),
        ]
    );
}

#[test]
fn apply_pll_mode_relocks_pll_before_switching() {
    let mut c = ClockTreeController::new();
    let ops = c.apply(&ClockMode::Full80MHz.config()).unwrap();
    assert_eq!(
        ops,
        vec![
            HwOp::SetFlashLatency(5),
            HwOp::SetApb1Prescaler(0b110),
            HwOp::StartLse,
            HwOp::StartMsi(6),
            HwOp::StartHsi16,
            HwOp::StopPll,
            HwOp::ConfigurePll { src_bits: 2, m_bits: 0, n_bits: 10, r_bits: 0 },
            HwOp::StartPll,
            HwOp::SelectSysClock(3),
        ]
    );
}

#[test]
fn apply_encodes_pll_dividers() {
    let mut c = ClockTreeController::new();
    let cfg = ClockConfig {
        clock_source: ClockSource::Pll,
        pll_source: PllSource::Msi,
        pll_m: 4,
        pll_n: 40,
        pll_r: 8,
        msi_range: 11,
    };
    let ops = c.apply(&cfg).unwrap();
    assert_eq!(ops[4], HwOp::StopPll);
    assert_eq!(ops[5], HwOp::ConfigurePll { src_bits: 1, m_bits: 3, n_bits: 40, r_bits: 3 });
    assert_eq!(ops.len(), 8);
}

#[test]
fn apply_before_reset_is_refused() {
    let mut c = ClockTreeController::new();
    c.apply(&ClockMode::Slow16MHz.config()).unwrap();
    let before = c;
    assert_eq!(c.apply(&ClockMode::Full80MHz.config()), Err(ApplyError::NotIdle));
    assert_eq!(c, before);
}

#[test]
fn apply_refuses_faulty_config() {
    let mut c = ClockTreeController::new();
    let cfg = ClockConfig { pll_source: PllSource::NoClock, ..ClockMode::Full80MHz.config() };
    assert_eq!(c.apply(&cfg), Err(ApplyError::Fault(ConfigFault::DegenerateFrequency)));
    assert_eq!(c.phase, ControllerPhase::Idle);
}

#[test]
fn complete_narrows_latency_from_readback() {
    let mut c = ClockTreeController::new();
    c.reset();
    c.apply(&ClockMode::Full80MHz.config()).unwrap();
    let settled = c.complete(&readback_80mhz()).unwrap();
    assert_eq!(settled.clock, DerivedClock { hclk_hz: 80_000_000, flash_wait_states: 5 });
    assert_eq!(settled.latency, HwOp::SetFlashLatency(5));
    // 80 MHz / 115_200 = 694.
    assert_eq!(settled.trace, HwOp::SetTracePrescaler(693));
    assert_eq!(c.phase, ControllerPhase::Stable);
}

#[test]
fn complete_uses_live_registers_not_the_request() {
    let mut c = ClockTreeController::new();
    c.apply(&ClockMode::Full80MHz.config()).unwrap();
    // The switch still reports MSI at 4 MHz.
    let rb = ClockReadback { sws: 0, pllsrc: 2, plln: 10, pllr_bits: 0, msi_range: 6 };
    let settled = c.complete(&rb).unwrap();
    assert_eq!(settled.clock.hclk_hz, 4_000_000);
    assert_eq!(settled.latency, HwOp::SetFlashLatency(0));
    assert_eq!(settled.trace, HwOp::SetTracePrescaler(33));
}

#[test]
fn complete_without_apply_is_refused() {
    let mut c = ClockTreeController::new();
    assert_eq!(c.complete(&readback_80mhz()), Err(ApplyError::NotConfiguring));
}

#[test]
fn complete_refuses_bad_readback() {
    let mut c = ClockTreeController::new();
    c.apply(&ClockMode::Full80MHz.config()).unwrap();
    let rb = ClockReadback { msi_range: 13, ..readback_80mhz() };
    assert_eq!(c.complete(&rb), Err(ApplyError::BadReadback));
    assert_eq!(c.phase, ControllerPhase::Configuring);
}

#[test]
fn readback_decodes_pllr_field() {
    // PLLR field 3 means a divider of 8: 16 MHz * 10 / 8 = 20 MHz.
    let rb = ClockReadback { pllr_bits: 3, ..readback_80mhz() };
    assert_eq!(
        clock_from_readback(&rb, 1),
        Some(DerivedClock { hclk_hz: 20_000_000, flash_wait_states: 1 })
    );
    let rb = ClockReadback { pllr_bits: 4, ..readback_80mhz() };
    assert_eq!(clock_from_readback(&rb, 1), None);
    assert_eq!(clock_from_readback(&readback_80mhz(), 0), None);
}

#[test]
fn readback_of_each_source() {
    let msi48 = ClockReadback { sws: 0, pllsrc: 0, plln: 0, pllr_bits: 0, msi_range: 11 };
    assert_eq!(clock_from_readback(&msi48, 1).unwrap().hclk_hz, 48_000_000);
    let hsi = ClockReadback { sws: 1, ..msi48 };
    assert_eq!(clock_from_readback(&hsi, 1).unwrap().hclk_hz, 16_000_000);
    let hse = ClockReadback { sws: 2, ..msi48 };
    assert_eq!(clock_from_readback(&hse, 1).unwrap().hclk_hz, 48_000_000);
}

#[test]
fn latency_is_held_to_the_field() {
    assert_eq!(settled_latency(&DerivedClock { hclk_hz: 80_000_000, flash_wait_states: 5 }), 5);
    assert_eq!(settled_latency(&DerivedClock { hclk_hz: 400_000_000, flash_wait_states: 25 }), 15);
}

#[test]
fn apply_starts_hsi16_when_it_only_feeds_the_pll() {
    let mut c = ClockTreeController::new();
    let cfg = ClockConfig { pll_source: PllSource::Hsi16, ..ClockMode::Reset4MHz.config() };
    let ops = c.apply(&cfg).unwrap();
    assert_eq!(
        ops,
        vec![
            HwOp::SetFlashLatency(5),
            HwOp::SetApb1Prescaler(0b110),
            HwOp::StartLse,
            HwOp::StartMsi(6),
            HwOp::StartHsi16,
            HwOp::SelectSysClock(0),
        ]
    );
}

#[test]
fn trace_prescaler_follows_the_clock() {
    assert_eq!(trace_prescaler(4_000_000), 33);
    assert_eq!(trace_prescaler(16_000_000), 137);
    assert_eq!(trace_prescaler(115_200), 0);
    assert_eq!(trace_prescaler(100_000), 0);
}

#[test]
fn each_mode_widens_latency_to_five_then_narrows() {
    let cases = [
        (ClockMode::Reset4MHz, ClockReadback { sws: 0, pllsrc: 0, plln: 10, pllr_bits: 0, msi_range: 6 }, 0),
        (ClockMode::Slow16MHz, ClockReadback { sws: 1, pllsrc: 0, plln: 10, pllr_bits: 0, msi_range: 6 }, 1),
        (ClockMode::Medium48MHz, ClockReadback { sws: 0, pllsrc: 0, plln: 10, pllr_bits: 0, msi_range: 11 }, 3),
        (ClockMode::Full80MHz, readback_80mhz(), 5),
    ];
    for (mode, rb, narrowed) in cases {
        let mut c = ClockTreeController::new();
        c.reset();
        let ops = c.apply(&mode.config()).unwrap();
        assert_eq!(ops[0], HwOp::SetFlashLatency(5));
        assert_eq!(ops.iter().filter(|op| matches!(op, HwOp::SetFlashLatency(_))).count(), 1);
        assert_eq!(c.complete(&rb).unwrap().latency, HwOp::SetFlashLatency(narrowed));
    }
}

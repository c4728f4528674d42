use clock_modes::listen::{
    delay_reload, tick_reload, ListenAction, ListenEvent, ListenSession, TickOverflow,
};

#[test]
fn blink_period_at_each_speed() {
    assert_eq!(ListenSession::new(4_000_000).ticks_ival, 40);
    assert_eq!(ListenSession::new(16_000_000).ticks_ival, 10);
    assert_eq!(ListenSession::new(48_000_000).ticks_ival, 3);
    assert_eq!(ListenSession::new(80_000_000).ticks_ival, 2);
}

#[test]
fn tick_reload_scales_with_speed() {
    assert_eq!(tick_reload(4_000_000), 50_000);
    assert_eq!(tick_reload(48_000_000), 600_000);
    assert_eq!(tick_reload(80_000_000), 1_000_000);
}

#[test]
fn delay_reload_counts_eighth_of_clock() {
    assert_eq!(delay_reload(20, 4_000_000), Some(10_000));
    assert_eq!(delay_reload(20, 80_000_000), Some(200_000));
    assert_eq!(delay_reload(u32::MAX, 80_000_000), None);
    // 1678 ms at 80 MHz is 16_780_000 counts, above the 24-bit limit.
    assert_eq!(delay_reload(1_677, 80_000_000), Some(16_770_000));
    assert_eq!(delay_reload(1_678, 80_000_000), None);
}

#[test]
fn led_toggles_once_per_interval_at_80mhz() {
    let mut s = ListenSession::new(80_000_000);
    assert!(s.led_on);
    let ival = s.ticks_ival;
    let mut toggles = 0;
    for _ in 0..ival {
        if let Ok(ListenAction::SetLed(_)) = s.on_event(ListenEvent::Tick) {
            toggles += 1;
        }
    }
    assert_eq!(toggles, 1);
    assert!(!s.led_on);
    for _ in 0..ival {
        if let Ok(ListenAction::SetLed(_)) = s.on_event(ListenEvent::Tick) {
            toggles += 1;
        }
    }
    assert_eq!(toggles, 2);
    assert!(s.led_on);
}

#[test]
fn led_levels_follow_the_toggles() {
    let mut s = ListenSession::new(80_000_000);
    assert_eq!(s.on_event(ListenEvent::Tick), Ok(ListenAction::Nothing));
    assert_eq!(s.on_event(ListenEvent::Tick), Ok(ListenAction::SetLed(false)));
    assert_eq!(s.on_event(ListenEvent::Tick), Ok(ListenAction::Nothing));
    assert_eq!(s.on_event(ListenEvent::Tick), Ok(ListenAction::SetLed(true)));
}

#[test]
fn tick_overflow_is_a_distinct_error() {
    let mut s = ListenSession::new(80_000_000);
    s.on_event(ListenEvent::Tick).unwrap();
    let before = s;
    assert_eq!(s.on_event(ListenEvent::TickOverflow), Err(TickOverflow));
    assert_eq!(s, before);
    assert_ne!(s.on_event(ListenEvent::Tick), Err(TickOverflow));
}

#[test]
fn click_then_settle_finishes_the_session() {
    let mut s = ListenSession::new(4_000_000);
    for _ in 0..5 {
        assert_eq!(s.on_event(ListenEvent::Tick), Ok(ListenAction::Nothing));
    }
    assert_eq!(s.on_event(ListenEvent::Push), Ok(ListenAction::DisableButton));
    assert_eq!(s.on_event(ListenEvent::Push), Ok(ListenAction::Nothing));
    assert_eq!(s.on_event(ListenEvent::Tick), Ok(ListenAction::Nothing));
    assert_eq!(s.on_event(ListenEvent::Tick), Ok(ListenAction::Finish));
}

#[test]
fn early_push_is_rejected() {
    let mut s = ListenSession::new(16_000_000);
    s.on_event(ListenEvent::Tick).unwrap();
    assert_eq!(s.on_event(ListenEvent::Push), Ok(ListenAction::Nothing));
    assert_eq!(s.filter.refractory_counter, 0);
}

#[test]
fn fast_clock_toggles_every_tick() {
    let mut s = ListenSession::new(200_000_000);
    assert_eq!(s.ticks_ival, 0);
    assert_eq!(s.on_event(ListenEvent::Tick), Ok(ListenAction::SetLed(false)));
    assert_eq!(s.on_event(ListenEvent::Tick), Ok(ListenAction::SetLed(true)));
}

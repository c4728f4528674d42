use clock_modes::debounce::DebounceFilter;

fn ticks(f: &mut DebounceFilter, n: u32) {
    for _ in 0..n {
        f.tick();
    }
}

#[test]
fn clean_edge_gives_one_click() {
    let mut f = DebounceFilter::new();
    ticks(&mut f, 5);
    assert!(f.edge());
    assert!(!f.armed);
    assert_eq!(f.quiet_counter, 2);
}

#[test]
fn edge_at_the_window_is_rejected() {
    let mut f = DebounceFilter::new();
    ticks(&mut f, 4);
    assert!(!f.edge());
    assert_eq!(f.refractory_counter, 0);
    assert!(f.armed);
}

#[test]
fn burst_after_press_gives_one_click() {
    let mut f = DebounceFilter::new();
    ticks(&mut f, 6);
    let mut clicks = 0;
    for _ in 0..3 {
        if f.edge() {
            clicks += 1;
        }
        f.tick();
    }
    assert_eq!(clicks, 1);
}

#[test]
fn two_presses_apart_give_two_clicks() {
    let mut f = DebounceFilter::new();
    ticks(&mut f, 5);
    let first = f.edge();
    ticks(&mut f, 2);
    assert!(f.is_settled());
    f.rearm();
    ticks(&mut f, 5);
    let second = f.edge();
    assert!(first && second);
}

#[test]
fn two_close_presses_give_no_click() {
    let mut f = DebounceFilter::new();
    ticks(&mut f, 2);
    assert!(!f.edge());
    ticks(&mut f, 3);
    assert!(!f.edge());
    assert_eq!(f.refractory_counter, 0);
}

#[test]
fn settles_after_debounce_window() {
    let mut f = DebounceFilter::new();
    ticks(&mut f, 5);
    assert!(f.edge());
    f.tick();
    assert!(!f.is_settled());
    f.tick();
    assert!(f.is_settled());
    f.tick();
    assert!(!f.is_settled());
}

#[test]
fn counters_saturate() {
    let mut f = DebounceFilter { quiet_counter: i16::MIN, refractory_counter: i16::MAX, armed: true };
    f.tick();
    assert_eq!(f.quiet_counter, i16::MIN);
    assert_eq!(f.refractory_counter, i16::MAX);
    let mut g = DebounceFilter::new();
    ticks(&mut g, 40_000);
    assert_eq!(g.refractory_counter, i16::MAX);
    assert_eq!(g.quiet_counter, -32_768);
}

#[test]
fn fresh_filter_never_settles_without_a_click() {
    let mut f = DebounceFilter::new();
    for _ in 0..100 {
        f.tick();
        assert!(!f.is_settled());
    }
}

//! One listen session: the decisions of the event loop between two clock
//! transitions. The caller waits on the tick and button sources, hands each
//! event to the session and performs the action it returns.
use vstd::prelude::*;
use crate::debounce::{
    DOUBLE_CLICK_WINDOW, DebounceFilter, FilterInput, fresh, lemma_run_ticks, run, step_spec, ticks,
};

verus! {

/// The slowest supported core clock, and the unit of the speed factor.
pub const BASE_HCLK: u32 = 4_000_000;

/// SysTick reload that gives one tick per 100 ms at 4 MHz (the SysTick runs
/// at an eighth of the core clock).
pub const BASE_TICK_RELOAD: u32 = 50_000;

/// LED half-period at 4 MHz, in ticks.
pub const BASE_BLINK_TICKS: u32 = 40;

/// SysTick counts per millisecond, per hertz of core clock.
pub const SYSTICK_HZ_PER_MS_COUNT: u32 = 8_000;

/// The tick source missed ticks faster than they were drained.
#[derive(Clone, Copy, Debug, PartialEq, Eq, Structural)]
pub struct TickOverflow;

/// An event from one of the two merged sources.
#[derive(Clone, Copy, Debug, PartialEq, Eq, Structural)]
pub enum ListenEvent {
    Tick,
    Push,
    /// The tick source reports that ticks were lost.
    TickOverflow,
}

/// What the caller does after an event.
#[derive(Clone, Copy, Debug, PartialEq, Eq, Structural)]
pub enum ListenAction {
    Nothing,
    /// Drive the status LED to this level.
    SetLed(bool),
    /// A click was confirmed: disable the button interrupt.
    DisableButton,
    /// The click has settled: end the session and change the clock mode.
    Finish,
}

/// The speed factor of `hclk` relative to 4 MHz.
pub open spec fn speed_factor(hclk: u32) -> int {
    hclk as int / BASE_HCLK as int
}

/// SysTick reload for a tick of the same length at any core clock.
pub open spec fn tick_reload_spec(hclk: u32) -> int {
    BASE_TICK_RELOAD as int * speed_factor(hclk)
}

/// Ticks per LED half-period: 40 at 4 MHz, scaled down with the speed.
pub open spec fn blink_ticks_spec(hclk: u32) -> int {
    BASE_BLINK_TICKS as int / speed_factor(hclk)
}

/// The SysTick reload for a tick at core clock `hclk`.
pub fn tick_reload(hclk: u32) -> (r: u32)
    ensures
        r as int == tick_reload_spec(hclk),
{
    let factor: u32 = hclk / BASE_HCLK;
    assert(factor <= 1074);
    BASE_TICK_RELOAD * factor
}

/// Largest value of the 24-bit SysTick reload register.
pub const SYSTICK_RELOAD_MAX: u32 = 0x00FF_FFFF;

/// SysTick counts for a delay of `millis` ms at core clock `hclk`.
pub open spec fn delay_counts_spec(millis: u32, hclk: u32) -> int {
    millis as int * (hclk as int / SYSTICK_HZ_PER_MS_COUNT as int)
}

/// The SysTick reload for a delay of `millis` ms at core clock `hclk`, or
/// `None` where it does not fit the 24-bit reload register.
pub fn delay_reload(millis: u32, hclk: u32) -> (r: Option<u32>)
    ensures
        delay_counts_spec(millis, hclk) <= SYSTICK_RELOAD_MAX ==> r == Some(
            delay_counts_spec(millis, hclk) as u32,
        ),
        delay_counts_spec(millis, hclk) > SYSTICK_RELOAD_MAX ==> r is None,
{
    match millis.checked_mul(hclk / SYSTICK_HZ_PER_MS_COUNT) {
        Some(counts) => {
            if counts <= SYSTICK_RELOAD_MAX {
                Some(counts)
            } else {
                None
            }
        },
        None => None,
    }
}

/// The state of one listen session.
#[derive(Clone, Copy, Debug, PartialEq, Eq, Structural)]
pub struct ListenSession {
    pub filter: DebounceFilter,
    /// Ticks since the LED last changed.
    pub ticks_cnt: u32,
    /// Ticks per LED half-period.
    pub ticks_ival: u32,
    pub led_on: bool,
}

/// One event's effect on a session: the next session and the action.
pub open spec fn listen_step_spec(s: ListenSession, e: ListenEvent) -> (ListenSession, Result<ListenAction, TickOverflow>) {
    match e {
        ListenEvent::TickOverflow => (s, Err(TickOverflow)),
        ListenEvent::Push => {
            let (f, click) = step_spec(s.filter, FilterInput::Edge);
            (
                ListenSession { filter: f, ..s },
                Ok(if click { ListenAction::DisableButton } else { ListenAction::Nothing }),
            )
        },
        ListenEvent::Tick => {
            let f = step_spec(s.filter, FilterInput::Tick).0;
            if f.settled_spec() {
                (ListenSession { filter: f, ..s }, Ok(ListenAction::Finish))
            } else if s.ticks_cnt + 1 >= s.ticks_ival {
                (
                    ListenSession { filter: f, ticks_cnt: 0, led_on: !s.led_on, ..s },
                    Ok(ListenAction::SetLed(!s.led_on)),
                )
            } else {
                (
                    ListenSession { filter: f, ticks_cnt: (s.ticks_cnt + 1) as u32, ..s },
                    Ok(ListenAction::Nothing),
                )
            }
        },
    }
}

impl ListenSession {
    /// The blink counter stays within one half-period.
    pub open spec fn wf(self) -> bool {
        &&& self.ticks_ival <= BASE_BLINK_TICKS
        &&& self.ticks_cnt <= self.ticks_ival
    }

    /// Starts a session at core clock `hclk`, at least 4 MHz: counters
    /// reset, button armed, LED on.
    pub fn new(hclk: u32) -> (r: Self)
        requires
            hclk >= BASE_HCLK,
        ensures
            r.filter == fresh(),
            r.ticks_cnt == 0,
            r.ticks_ival as int == blink_ticks_spec(hclk),
            r.led_on,
            r.wf(),
    {
        let factor: u32 = hclk / BASE_HCLK;
        ListenSession {
            filter: DebounceFilter::new(),
            ticks_cnt: 0,
            ticks_ival: BASE_BLINK_TICKS / factor,
            led_on: true,
        }
    }

    /// Takes one event. A tick overflow is an error and leaves the session
    /// as it was; the caller abandons the wait and listens afresh.
    pub fn on_event(&mut self, e: ListenEvent) -> (r: Result<ListenAction, TickOverflow>)
        requires
            old(self).wf(),
        ensures
            (*final(self), r) == listen_step_spec(*old(self), e),
            final(self).wf(),
    {
        match e {
            ListenEvent::TickOverflow => Err(TickOverflow),
            ListenEvent::Push => {
                if self.filter.edge() {
                    Ok(ListenAction::DisableButton)
                } else {
                    Ok(ListenAction::Nothing)
                }
            },
            ListenEvent::Tick => {
                self.filter.tick();
                if self.filter.is_settled() {
                    Ok(ListenAction::Finish)
                } else if self.ticks_cnt + 1 >= self.ticks_ival {
                    self.ticks_cnt = 0;
                    self.led_on = !self.led_on;
                    Ok(ListenAction::SetLed(self.led_on))
                } else {
                    self.ticks_cnt = self.ticks_cnt + 1;
                    Ok(ListenAction::Nothing)
                }
            },
        }
    }
}

/// The session after `evs`, and the result of each event in turn.
pub open spec fn listen_run(s: ListenSession, evs: Seq<ListenEvent>) -> (ListenSession, Seq<Result<ListenAction, TickOverflow>>)
    decreases evs.len(),
{
    if evs.len() == 0 {
        (s, Seq::empty())
    } else {
        let (s1, a) = listen_step_spec(s, evs[0]);
        let (s2, rest) = listen_run(s1, evs.subrange(1, evs.len() as int));
        (s2, seq![a] + rest)
    }
}

/// `k` ticks in a row.
pub open spec fn tick_events(k: nat) -> Seq<ListenEvent> {
    Seq::new(k, |i: int| ListenEvent::Tick)
}

/// How many of `acts` drive the LED.
pub open spec fn led_writes(acts: Seq<Result<ListenAction, TickOverflow>>) -> nat
    decreases acts.len(),
{
    if acts.len() == 0 {
        0
    } else {
        (if acts[0] matches Ok(ListenAction::SetLed(_)) { 1nat } else { 0nat }) + led_writes(
            acts.subrange(1, acts.len() as int),
        )
    }
}

/// None of `acts` ends the session.
pub open spec fn no_finish(acts: Seq<Result<ListenAction, TickOverflow>>) -> bool {
    forall|i: int| 0 <= i < acts.len() ==> acts[i] != Ok::<ListenAction, TickOverflow>(ListenAction::Finish)
}

proof fn lemma_listen_run_append(s: ListenSession, a: Seq<ListenEvent>, b: Seq<ListenEvent>)
    ensures
        listen_run(s, a + b) == (
            listen_run(listen_run(s, a).0, b).0,
            listen_run(s, a).1 + listen_run(listen_run(s, a).0, b).1,
        ),
    decreases a.len(),
{
    if a.len() == 0 {
        assert(a + b =~= b);
        assert(listen_run(s, a).1 + listen_run(s, b).1 =~= listen_run(s, b).1);
    } else {
        let (s1, x) = listen_step_spec(s, a[0]);
        let ta = a.subrange(1, a.len() as int);
        assert((a + b).subrange(1, (a + b).len() as int) =~= ta + b);
        lemma_listen_run_append(s1, ta, b);
        assert(seq![x] + (listen_run(s1, ta).1 + listen_run(listen_run(s1, ta).0, b).1) =~= (seq![x]
            + listen_run(s1, ta).1) + listen_run(listen_run(s1, ta).0, b).1);
    }
}

proof fn lemma_led_writes_append(a: Seq<Result<ListenAction, TickOverflow>>, b: Seq<Result<ListenAction, TickOverflow>>)
    ensures
        led_writes(a + b) == led_writes(a) + led_writes(b),
    decreases a.len(),
{
    if a.len() == 0 {
        assert(a + b =~= b);
    } else {
        assert((a + b).subrange(1, (a + b).len() as int) =~= a.subrange(1, a.len() as int) + b);
        assert((a + b)[0] == a[0]);
        lemma_led_writes_append(a.subrange(1, a.len() as int), b);
    }
}

proof fn lemma_tick_events_split(a: nat, b: nat)
    ensures
        tick_events(a + b) =~= tick_events(a) + tick_events(b),
{
}

/// Without a pending click, `j` ticks that stay inside the current
/// half-period only advance the blink counter.
proof fn lemma_ticks_within_half_period(s: ListenSession, j: nat)
    requires
        s.filter.quiet_counter <= 0,
        s.ticks_cnt + j < s.ticks_ival,
    ensures
        ({
            let (s2, acts) = listen_run(s, tick_events(j));
            &&& s2.ticks_cnt == s.ticks_cnt + j
            &&& s2.ticks_ival == s.ticks_ival
            &&& s2.led_on == s.led_on
            &&& s2.filter.quiet_counter <= 0
            &&& led_writes(acts) == 0
            &&& no_finish(acts)
            &&& acts.len() == j
        }),
    decreases j,
{
    if j > 0 {
        let s1 = listen_step_spec(s, ListenEvent::Tick).0;
        assert(tick_events(j)[0] == ListenEvent::Tick);
        assert(tick_events(j).subrange(1, j as int) =~= tick_events((j - 1) as nat));
        lemma_ticks_within_half_period(s1, (j - 1) as nat);
        let acts = listen_run(s, tick_events(j)).1;
        let rest = listen_run(s1, tick_events((j - 1) as nat)).1;
        assert(acts.subrange(1, acts.len() as int) =~= rest);
        assert forall|i: int| 0 <= i < acts.len() implies acts[i] != Ok::<ListenAction, TickOverflow>(
            ListenAction::Finish,
        ) by {
            if i > 0 {
                assert(acts[i] == rest[i - 1]);
            }
        }
    }
}

/// Without a pending click, the ticks up to the end of the current
/// half-period toggle the LED once, at the last of them.
proof fn lemma_half_period(s: ListenSession)
    requires
        s.filter.quiet_counter <= 0,
        s.ticks_cnt < s.ticks_ival,
    ensures
        ({
            let (s2, acts) = listen_run(s, tick_events((s.ticks_ival - s.ticks_cnt) as nat));
            &&& s2.ticks_cnt == 0
            &&& s2.ticks_ival == s.ticks_ival
            &&& s2.led_on == !s.led_on
            &&& s2.filter.quiet_counter <= 0
            &&& led_writes(acts) == 1
            &&& no_finish(acts)
        }),
{
    let j = (s.ticks_ival - s.ticks_cnt - 1) as nat;
    lemma_tick_events_split(j, 1);
    lemma_listen_run_append(s, tick_events(j), tick_events(1));
    lemma_ticks_within_half_period(s, j);
    let (s1, a1) = listen_run(s, tick_events(j));
    let s2 = listen_step_spec(s1, ListenEvent::Tick).0;
    let x = listen_step_spec(s1, ListenEvent::Tick).1;
    assert(tick_events(1)[0] == ListenEvent::Tick);
    assert(tick_events(1).subrange(1, 1) =~= Seq::<ListenEvent>::empty());
    reveal_with_fuel(listen_run, 2);
    let a2 = listen_run(s1, tick_events(1)).1;
    assert(a2 =~= seq![x]);
    assert(listen_run(s1, tick_events(1)).0 == s2);
    assert(j + 1 == (s.ticks_ival - s.ticks_cnt) as nat);
    assert(x == Ok::<ListenAction, TickOverflow>(ListenAction::SetLed(!s.led_on)));
    reveal_with_fuel(led_writes, 2);
    assert(seq![x].subrange(1, 1) =~= Seq::<Result<ListenAction, TickOverflow>>::empty());
    lemma_led_writes_append(a1, a2);
    let acts = a1 + a2;
    assert forall|i: int| 0 <= i < acts.len() implies acts[i] != Ok::<ListenAction, TickOverflow>(
        ListenAction::Finish,
    ) by {
        if i >= a1.len() {
            assert(acts[i] == a2[i - a1.len()]);
        } else {
            assert(acts[i] == a1[i]);
        }
    }
}

/// Blink law: while no click is pending (the quiet counter is not positive,
/// as from the start of a session until a click), every `ticks_ival` ticks
/// toggle the LED exactly once and never end the session; after `m` such
/// periods the LED has changed `m` times and is back at its first level when
/// `m` is even.
pub proof fn lemma_blink_period(s: ListenSession, m: nat)
    requires
        s.filter.quiet_counter <= 0,
        s.ticks_cnt == 0,
        s.ticks_ival >= 1,
    ensures
        ({
            let (s2, acts) = listen_run(s, tick_events(m * s.ticks_ival as nat));
            &&& led_writes(acts) == m
            &&& no_finish(acts)
            &&& s2.led_on == if m % 2 == 0 { s.led_on } else { !s.led_on }
            &&& s2.ticks_cnt == 0
            &&& s2.ticks_ival == s.ticks_ival
            &&& s2.filter.quiet_counter <= 0
        }),
    decreases m,
{
    let ival = s.ticks_ival as nat;
    if m == 0 {
        assert(m * ival == 0) by (nonlinear_arith)
            requires
                m == 0,
        ;
        assert(tick_events(0) =~= Seq::<ListenEvent>::empty());
    } else {
        let k = (m - 1) as nat;
        assert(m * ival == k * ival + ival) by (nonlinear_arith)
            requires
                m == k + 1,
        ;
        lemma_tick_events_split(k * ival, ival);
        lemma_blink_period(s, k);
        lemma_listen_run_append(s, tick_events(k * ival), tick_events(ival));
        let (s1, a1) = listen_run(s, tick_events(k * ival));
        lemma_half_period(s1);
        let a2 = listen_run(s1, tick_events(ival)).1;
        lemma_led_writes_append(a1, a2);
        let acts = a1 + a2;
        assert forall|i: int| 0 <= i < acts.len() implies acts[i] != Ok::<ListenAction, TickOverflow>(
            ListenAction::Finish,
        ) by {
            if i >= a1.len() {
                assert(acts[i] == a2[i - a1.len()]);
            } else {
                assert(acts[i] == a1[i]);
            }
        }
    }
}

proof fn lemma_listen_run_one(s: ListenSession, e: ListenEvent)
    ensures
        listen_run(s, seq![e]) == (listen_step_spec(s, e).0, seq![listen_step_spec(s, e).1]),
{
    reveal_with_fuel(listen_run, 2);
    assert(seq![e][0] == e);
    assert(seq![e].subrange(1, 1) =~= Seq::<ListenEvent>::empty());
    assert(seq![listen_step_spec(s, e).1] + Seq::<Result<ListenAction, TickOverflow>>::empty()
        =~= seq![listen_step_spec(s, e).1]);
}

/// Without a pending click, ticks never end the session, and the filter
/// inside moves as it does on its own.
proof fn lemma_ticks_no_finish(s: ListenSession, n: nat)
    requires
        s.wf(),
        s.filter.quiet_counter <= 0,
    ensures
        ({
            let (s2, acts) = listen_run(s, tick_events(n));
            &&& no_finish(acts)
            &&& acts.len() == n
            &&& s2.filter == run(s.filter, ticks(n)).0
            &&& s2.wf()
        }),
    decreases n,
{
    if n > 0 {
        let s1 = listen_step_spec(s, ListenEvent::Tick).0;
        assert(tick_events(n)[0] == ListenEvent::Tick);
        assert(tick_events(n).subrange(1, n as int) =~= tick_events((n - 1) as nat));
        assert(ticks(n)[0] == FilterInput::Tick);
        assert(ticks(n).subrange(1, n as int) =~= ticks((n - 1) as nat));
        lemma_ticks_no_finish(s1, (n - 1) as nat);
        let acts = listen_run(s, tick_events(n)).1;
        let rest = listen_run(s1, tick_events((n - 1) as nat)).1;
        assert(acts.subrange(1, acts.len() as int) =~= rest);
        assert forall|i: int| 0 <= i < acts.len() implies acts[i] != Ok::<ListenAction, TickOverflow>(
            ListenAction::Finish,
        ) by {
            if i > 0 {
                assert(acts[i] == rest[i - 1]);
            }
        }
    } else {
        assert(tick_events(0) =~= Seq::<ListenEvent>::empty());
        assert(ticks(0) =~= Seq::<FilterInput>::empty());
    }
}

/// A press in a listen session ends it exactly once: from the start of a
/// session at any core clock, more than the double-click window of ticks,
/// a push and two ticks give a button disable at the push, no end of the
/// session before, and the end of the session at the second tick.
pub proof fn lemma_press_ends_session(s: ListenSession, k: nat)
    requires
        s.wf(),
        s.filter == fresh(),
        k > DOUBLE_CLICK_WINDOW,
    ensures
        ({
            let acts = listen_run(s, tick_events(k) + seq![ListenEvent::Push] + tick_events(2)).1;
            &&& acts.len() == k + 3
            &&& acts[k as int] == Ok::<ListenAction, TickOverflow>(ListenAction::DisableButton)
            &&& acts[k + 2int] == Ok::<ListenAction, TickOverflow>(ListenAction::Finish)
            &&& forall|i: int| 0 <= i < k + 2 ==> acts[i] != Ok::<ListenAction, TickOverflow>(
                ListenAction::Finish,
            )
        }),
{
    let push = seq![ListenEvent::Push];
    let tick = seq![ListenEvent::Tick];
    assert(tick_events(2) =~= tick + tick);
    let evs = tick_events(k) + push + tick_events(2);
    assert(evs =~= tick_events(k) + (push + (tick + tick)));
    lemma_ticks_no_finish(s, k);
    lemma_run_ticks(fresh(), k);
    let (s1, a1) = listen_run(s, tick_events(k));
    lemma_listen_run_append(s, tick_events(k), push + (tick + tick));
    lemma_listen_run_append(s1, push, tick + tick);
    lemma_listen_run_one(s1, ListenEvent::Push);
    let (s2, x2) = listen_step_spec(s1, ListenEvent::Push);
    assert(x2 == Ok::<ListenAction, TickOverflow>(ListenAction::DisableButton));
    lemma_listen_run_append(s2, tick, tick);
    lemma_listen_run_one(s2, ListenEvent::Tick);
    let (s3, x3) = listen_step_spec(s2, ListenEvent::Tick);
    assert(x3 != Ok::<ListenAction, TickOverflow>(ListenAction::Finish));
    lemma_listen_run_one(s3, ListenEvent::Tick);
    let (s4, x4) = listen_step_spec(s3, ListenEvent::Tick);
    assert(x4 == Ok::<ListenAction, TickOverflow>(ListenAction::Finish));
    let acts = listen_run(s, evs).1;
    assert(acts =~= a1 + (seq![x2] + (seq![x3] + seq![x4])));
    assert forall|i: int| 0 <= i < k + 2 implies acts[i] != Ok::<ListenAction, TickOverflow>(
        ListenAction::Finish,
    ) by {
        if i < k {
            assert(acts[i] == a1[i]);
        }
    }
}

} // verus!

//! Debounce and double-click filter for the user button.
use vstd::prelude::*;

verus! {

/// Ticks during which bounce after an accepted press is waited out.
pub const DEBOUNCE_WINDOW: i16 = 2;

/// Ticks after an edge during which another edge counts as a repeat.
pub const DOUBLE_CLICK_WINDOW: i16 = 4;

/// Lower clamp of the quiet counter.
pub const QUIET_MIN: i16 = i16::MIN;

/// Upper clamp of the refractory counter.
pub const REFRACTORY_MAX: i16 = i16::MAX;

/// What the filter is fed.
#[derive(Clone, Copy, Debug, PartialEq, Eq, Structural)]
pub enum FilterInput {
    /// One period of the tick source.
    Tick,
    /// A raw button edge.
    Edge,
    /// The start of a listen session: counters reset, edges accepted again.
    Rearm,
}

/// Two saturating counters and whether raw edges are still taken.
#[derive(Clone, Copy, Debug, PartialEq, Eq, Structural)]
pub struct DebounceFilter {
    /// Counts down once per tick; set to the debounce window on a click.
    pub quiet_counter: i16,
    /// Counts up once per tick; cleared by an edge that comes too soon.
    pub refractory_counter: i16,
    /// Cleared by a click: later edges are dropped until re-armed.
    pub armed: bool,
}

/// The filter at the start of a listen session.
pub open spec fn fresh() -> DebounceFilter {
    DebounceFilter { quiet_counter: 0, refractory_counter: 0, armed: true }
}

/// One input's effect: the next filter and whether a click was confirmed.
pub open spec fn step_spec(s: DebounceFilter, e: FilterInput) -> (DebounceFilter, bool) {
    match e {
        FilterInput::Tick => (
            DebounceFilter {
                quiet_counter: if s.quiet_counter > QUIET_MIN {
                    (s.quiet_counter - 1) as i16
                } else {
                    s.quiet_counter
                },
                refractory_counter: if s.refractory_counter < REFRACTORY_MAX {
                    (s.refractory_counter + 1) as i16
                } else {
                    s.refractory_counter
                },
                armed: s.armed,
            },
            false,
        ),
        FilterInput::Edge => if !s.armed {
            (s, false)
        } else if s.refractory_counter > DOUBLE_CLICK_WINDOW {
            (DebounceFilter { quiet_counter: DEBOUNCE_WINDOW, armed: false, ..s }, true)
        } else {
            (DebounceFilter { refractory_counter: 0, ..s }, false)
        },
        FilterInput::Rearm => (fresh(), false),
    }
}

/// The filter after `evs`, and how many clicks they confirmed.
pub open spec fn run(s: DebounceFilter, evs: Seq<FilterInput>) -> (DebounceFilter, nat)
    decreases evs.len(),
{
    if evs.len() == 0 {
        (s, 0)
    } else {
        let (s1, c) = step_spec(s, evs[0]);
        let (s2, n) = run(s1, evs.subrange(1, evs.len() as int));
        (s2, n + if c { 1nat } else { 0nat })
    }
}

/// `k` ticks in a row.
pub open spec fn ticks(k: nat) -> Seq<FilterInput> {
    Seq::new(k, |i: int| FilterInput::Tick)
}

/// No re-arm among `evs`.
pub open spec fn no_rearm(evs: Seq<FilterInput>) -> bool {
    forall|i: int| 0 <= i < evs.len() ==> evs[i] != FilterInput::Rearm
}

impl DebounceFilter {
    /// Settled: the debounce window after a click has just run out, and no
    /// edge came within the double-click window. The owning loop ends the
    /// listen session on it.
    pub open spec fn settled_spec(self) -> bool {
        self.quiet_counter == 0 && self.refractory_counter >= DOUBLE_CLICK_WINDOW
    }

    /// A filter at the start of a listen session.
    pub fn new() -> (r: Self)
        ensures
            r == fresh(),
    {
        DebounceFilter { quiet_counter: 0, refractory_counter: 0, armed: true }
    }

    /// Resets both counters and accepts edges again.
    pub fn rearm(&mut self)
        ensures
            *final(self) == step_spec(*old(self), FilterInput::Rearm).0,
    {
        *self = DebounceFilter::new();
    }

    /// Advances both counters by one tick, each held at its clamp.
    pub fn tick(&mut self)
        ensures
            *final(self) == step_spec(*old(self), FilterInput::Tick).0,
            old(self).quiet_counter > QUIET_MIN ==> final(self).quiet_counter == old(self).quiet_counter - 1,
            old(self).quiet_counter == QUIET_MIN ==> final(self).quiet_counter == QUIET_MIN,
            old(self).refractory_counter < REFRACTORY_MAX ==> final(self).refractory_counter
                == old(self).refractory_counter + 1,
            old(self).refractory_counter == REFRACTORY_MAX ==> final(self).refractory_counter
                == REFRACTORY_MAX,
    {
        if self.quiet_counter > QUIET_MIN {
            self.quiet_counter = self.quiet_counter - 1;
        }
        if self.refractory_counter < REFRACTORY_MAX {
            self.refractory_counter = self.refractory_counter + 1;
        }
    }

    /// Takes a raw edge. Returns true for a confirmed click: the filter is
    /// armed and more than the double-click window has passed; it then starts
    /// the debounce window and drops later edges. An earlier edge clears the
    /// refractory counter instead. A disarmed filter ignores the edge.
    pub fn edge(&mut self) -> (r: bool)
        ensures
            (*final(self), r) == step_spec(*old(self), FilterInput::Edge),
            r == (old(self).armed && old(self).refractory_counter > DOUBLE_CLICK_WINDOW),
    {
        if !self.armed {
            false
        } else if self.refractory_counter > DOUBLE_CLICK_WINDOW {
            self.quiet_counter = DEBOUNCE_WINDOW;
            self.armed = false;
            true
        } else {
            self.refractory_counter = 0;
            false
        }
    }

    pub fn is_settled(&self) -> (r: bool)
        ensures
            r == self.settled_spec(),
    {
        self.quiet_counter == 0 && self.refractory_counter >= DOUBLE_CLICK_WINDOW
    }
}

/// Running `a` then `b` is running `a + b`; the clicks add up.
pub proof fn lemma_run_append(s: DebounceFilter, a: Seq<FilterInput>, b: Seq<FilterInput>)
    ensures
        run(s, a + b) == (run(run(s, a).0, b).0, run(s, a).1 + run(run(s, a).0, b).1),
    decreases a.len(),
{
    if a.len() == 0 {
        assert(a + b =~= b);
    } else {
        let s1 = step_spec(s, a[0]).0;
        assert((a + b).subrange(1, (a + b).len() as int) =~= a.subrange(1, a.len() as int) + b);
        lemma_run_append(s1, a.subrange(1, a.len() as int), b);
    }
}

/// `k` ticks confirm nothing and move each counter by `k` up to its clamp.
pub proof fn lemma_run_ticks(s: DebounceFilter, k: nat)
    ensures
        run(s, ticks(k)).1 == 0,
        run(s, ticks(k)).0.armed == s.armed,
        run(s, ticks(k)).0.quiet_counter as int == if s.quiet_counter - k < QUIET_MIN {
            QUIET_MIN as int
        } else {
            s.quiet_counter - k
        },
        run(s, ticks(k)).0.refractory_counter as int == if s.refractory_counter + k
            > REFRACTORY_MAX {
            REFRACTORY_MAX as int
        } else {
            s.refractory_counter + k
        },
    decreases k,
{
    if k > 0 {
        let s1 = step_spec(s, FilterInput::Tick).0;
        assert(ticks(k)[0] == FilterInput::Tick);
        assert(ticks(k).subrange(1, k as int) =~= ticks((k - 1) as nat));
        lemma_run_ticks(s1, (k - 1) as nat);
    }
}

/// A disarmed filter confirms nothing until it is re-armed.
pub proof fn lemma_disarmed_silent(s: DebounceFilter, evs: Seq<FilterInput>)
    requires
        !s.armed,
        no_rearm(evs),
    ensures
        run(s, evs).1 == 0,
        !run(s, evs).0.armed,
    decreases evs.len(),
{
    if evs.len() > 0 {
        let tail = evs.subrange(1, evs.len() as int);
        assert(no_rearm(tail)) by {
            assert forall|i: int| 0 <= i < tail.len() implies tail[i] != FilterInput::Rearm by {
                assert(tail[i] == evs[i + 1]);
            }
        }
        assert(evs[0] != FilterInput::Rearm);
        lemma_disarmed_silent(step_spec(s, evs[0]).0, tail);
    }
}

proof fn lemma_run_one(s: DebounceFilter, e: FilterInput)
    ensures
        run(s, seq![e]) == (step_spec(s, e).0, if step_spec(s, e).1 { 1nat } else { 0nat }),
{
    assert(seq![e].subrange(1, 1) =~= Seq::<FilterInput>::empty());
    assert(seq![e][0] == e);
    reveal_with_fuel(run, 2);
}

/// From a fresh filter, more than the double-click window of ticks and then
/// an edge confirm one click and leave the filter disarmed.
proof fn lemma_press_after_quiet(k: nat)
    requires
        k > DOUBLE_CLICK_WINDOW,
    ensures
        run(fresh(), ticks(k) + seq![FilterInput::Edge]).1 == 1,
        !run(fresh(), ticks(k) + seq![FilterInput::Edge]).0.armed,
{
    lemma_run_append(fresh(), ticks(k), seq![FilterInput::Edge]);
    lemma_run_ticks(fresh(), k);
    lemma_run_one(run(fresh(), ticks(k)).0, FilterInput::Edge);
}

/// A clean press, one edge after more than the double-click window of quiet
/// ticks, confirms exactly one click, whatever ticks and bouncing edges
/// follow it in the same listen session.
pub proof fn lemma_clean_press_single_click(k: nat, rest: Seq<FilterInput>)
    requires
        k > DOUBLE_CLICK_WINDOW,
        no_rearm(rest),
    ensures
        run(fresh(), ticks(k) + seq![FilterInput::Edge] + rest).1 == 1,
{
    let press = ticks(k) + seq![FilterInput::Edge];
    lemma_press_after_quiet(k);
    lemma_run_append(fresh(), press, rest);
    lemma_disarmed_silent(run(fresh(), press).0, rest);
}

/// Of two edges less than the double-click window of ticks apart, the second
/// never confirms a click. Where the first also came within the window of
/// the previous edge or of the session start, neither confirms one, and the
/// refractory counter is cleared.
pub proof fn lemma_close_presses_rejected(s: DebounceFilter, j: nat)
    requires
        j < DOUBLE_CLICK_WINDOW,
        s.refractory_counter >= 0,
    ensures
        run(s, seq![FilterInput::Edge] + ticks(j) + seq![FilterInput::Edge]).1 == if step_spec(
            s,
            FilterInput::Edge,
        ).1 {
            1nat
        } else {
            0nat
        },
        s.armed && s.refractory_counter <= DOUBLE_CLICK_WINDOW ==> {
            let r = run(s, seq![FilterInput::Edge] + ticks(j) + seq![FilterInput::Edge]);
            &&& r.1 == 0
            &&& r.0.refractory_counter == 0
            &&& r.0.armed
        },
{
    let first = seq![FilterInput::Edge];
    let rest = ticks(j) + seq![FilterInput::Edge];
    assert(first + ticks(j) + seq![FilterInput::Edge] =~= first + rest);
    lemma_run_append(s, first, rest);
    lemma_run_one(s, FilterInput::Edge);
    let s1 = step_spec(s, FilterInput::Edge).0;
    if !s1.armed {
        assert(no_rearm(rest));
        lemma_disarmed_silent(s1, rest);
    } else {
        assert(s1.refractory_counter == 0);
        lemma_run_append(s1, ticks(j), seq![FilterInput::Edge]);
        lemma_run_ticks(s1, j);
        lemma_run_one(run(s1, ticks(j)).0, FilterInput::Edge);
    }
}

/// Two presses, each more than the double-click window of ticks after the
/// start of its listen session, confirm two clicks.
pub proof fn lemma_two_presses_two_clicks(k1: nat, gap: nat, k2: nat)
    requires
        k1 > DOUBLE_CLICK_WINDOW,
        k2 > DOUBLE_CLICK_WINDOW,
    ensures
        run(
            fresh(),
            ticks(k1) + seq![FilterInput::Edge] + ticks(gap) + seq![FilterInput::Rearm] + ticks(k2)
                + seq![FilterInput::Edge],
        ).1 == 2,
{
    let first_press = ticks(k1) + seq![FilterInput::Edge];
    let mid = ticks(gap);
    let second_press = ticks(k2) + seq![FilterInput::Edge];
    let all = ticks(k1) + seq![FilterInput::Edge] + ticks(gap) + seq![FilterInput::Rearm]
        + ticks(k2) + seq![FilterInput::Edge];
    assert(all =~= first_press + (mid + (seq![FilterInput::Rearm] + second_press)));
    lemma_press_after_quiet(k1);
    lemma_run_append(fresh(), first_press, mid + (seq![FilterInput::Rearm] + second_press));
    let s1 = run(fresh(), first_press).0;
    lemma_run_append(s1, mid, seq![FilterInput::Rearm] + second_press);
    lemma_run_ticks(s1, gap);
    let s2 = run(s1, mid).0;
    lemma_run_append(s2, seq![FilterInput::Rearm], second_press);
    lemma_run_one(s2, FilterInput::Rearm);
    lemma_press_after_quiet(k2);
}

} // verus!

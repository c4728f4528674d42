//! The cyclic sequence of clock modes, with the configuration and the
//! indicator pattern of each.
use vstd::prelude::*;
use crate::clock::{
    ClockConfig, ClockSource, DerivedClock, PllSource, config_fault, derived_spec, hclk_spec, msi_table_spec, wait_states_spec,
};
use crate::tree::MSI_RANGE_DEFAULT;

verus! {

/// MSI range that gives 48 MHz.
pub const MSI_RANGE_48MHZ: u32 = 11;

/// A clock operating point.
#[derive(Clone, Copy, Debug, PartialEq, Eq, Structural)]
pub enum ClockMode {
    Reset4MHz,
    Slow16MHz,
    Medium48MHz,
    Full80MHz,
}

impl ClockMode {
    /// The mode that follows `self`; the last one wraps to the first.
    pub open spec fn next_spec(self) -> ClockMode {
        match self {
            ClockMode::Reset4MHz => ClockMode::Slow16MHz,
            ClockMode::Slow16MHz => ClockMode::Medium48MHz,
            ClockMode::Medium48MHz => ClockMode::Full80MHz,
            ClockMode::Full80MHz => ClockMode::Reset4MHz,
        }
    }

    /// The configuration of each mode. All share the PLL factors
    /// `m = 1, n = 10, r = 2`, which give 80 MHz from HSI16.
    pub open spec fn config_spec(self) -> ClockConfig {
        let (clock_source, pll_source, msi_range) = match self {
            ClockMode::Reset4MHz => (ClockSource::Msi, PllSource::NoClock, MSI_RANGE_DEFAULT),
            ClockMode::Slow16MHz => (ClockSource::Hsi16, PllSource::NoClock, MSI_RANGE_DEFAULT),
            ClockMode::Medium48MHz => (ClockSource::Msi, PllSource::NoClock, MSI_RANGE_48MHZ),
            ClockMode::Full80MHz => (ClockSource::Pll, PllSource::Hsi16, MSI_RANGE_DEFAULT),
        };
        ClockConfig { clock_source, pll_source, pll_m: 1, pll_n: 10, pll_r: 2, msi_range }
    }

    /// The two indicator outputs of each mode: a two-bit code, low bit first.
    pub open spec fn indicators_spec(self) -> (bool, bool) {
        match self {
            ClockMode::Reset4MHz => (false, false),
            ClockMode::Slow16MHz => (true, false),
            ClockMode::Medium48MHz => (false, true),
            ClockMode::Full80MHz => (true, true),
        }
    }

    /// The documented core clock of each mode.
    pub open spec fn hz_spec(self) -> int {
        match self {
            ClockMode::Reset4MHz => 4_000_000,
            ClockMode::Slow16MHz => 16_000_000,
            ClockMode::Medium48MHz => 48_000_000,
            ClockMode::Full80MHz => 80_000_000,
        }
    }

    /// The documented flash wait states of each mode.
    pub open spec fn wait_states_documented(self) -> int {
        match self {
            ClockMode::Reset4MHz => 0,
            ClockMode::Slow16MHz => 1,
            ClockMode::Medium48MHz => 3,
            ClockMode::Full80MHz => 5,
        }
    }

    pub fn next(self) -> (r: ClockMode)
        ensures
            r == self.next_spec(),
    {
        match self {
            ClockMode::Reset4MHz => ClockMode::Slow16MHz,
            ClockMode::Slow16MHz => ClockMode::Medium48MHz,
            ClockMode::Medium48MHz => ClockMode::Full80MHz,
            ClockMode::Full80MHz => ClockMode::Reset4MHz,
        }
    }

    pub fn config(self) -> (r: ClockConfig)
        ensures
            r == self.config_spec(),
    {
        let (clock_source, pll_source, msi_range) = match self {
            ClockMode::Reset4MHz => (ClockSource::Msi, PllSource::NoClock, MSI_RANGE_DEFAULT),
            ClockMode::Slow16MHz => (ClockSource::Hsi16, PllSource::NoClock, MSI_RANGE_DEFAULT),
            ClockMode::Medium48MHz => (ClockSource::Msi, PllSource::NoClock, MSI_RANGE_48MHZ),
            ClockMode::Full80MHz => (ClockSource::Pll, PllSource::Hsi16, MSI_RANGE_DEFAULT),
        };
        ClockConfig { clock_source, pll_source, pll_m: 1, pll_n: 10, pll_r: 2, msi_range }
    }

    pub fn indicators(self) -> (r: (bool, bool))
        ensures
            r == self.indicators_spec(),
    {
        match self {
            ClockMode::Reset4MHz => (false, false),
            ClockMode::Slow16MHz => (true, false),
            ClockMode::Medium48MHz => (false, true),
            ClockMode::Full80MHz => (true, true),
        }
    }
}

/// The mode `k` steps after `m`.
pub open spec fn advance_n(m: ClockMode, k: nat) -> ClockMode
    decreases k,
{
    if k == 0 {
        m
    } else {
        advance_n(m.next_spec(), (k - 1) as nat)
    }
}

/// The modes form one cycle of length four: from any mode the next three
/// are the three others, and the fourth step returns to it.
pub proof fn lemma_mode_cycle(m: ClockMode)
    ensures
        advance_n(m, 4) == m,
        m != advance_n(m, 1),
        m != advance_n(m, 2),
        m != advance_n(m, 3),
        advance_n(m, 1) != advance_n(m, 2),
        advance_n(m, 1) != advance_n(m, 3),
        advance_n(m, 2) != advance_n(m, 3),
{
    reveal_with_fuel(advance_n, 5);
}

/// Each mode's configuration has no fault, and derives exactly its documented
/// core clock and flash wait states.
pub proof fn lemma_mode_frequencies(m: ClockMode)
    ensures
        config_fault(m.config_spec(), msi_table_spec()) is None,
        hclk_spec(m.config_spec(), msi_table_spec()) == m.hz_spec(),
        wait_states_spec(hclk_spec(m.config_spec(), msi_table_spec())) == m.wait_states_documented(),
        derived_spec(m.config_spec(), msi_table_spec()) == (DerivedClock {
            hclk_hz: m.hz_spec() as u32,
            flash_wait_states: m.wait_states_documented() as u32,
        }),
{
    assert(msi_table_spec()[6] == 4_000_000u32);
    assert(msi_table_spec()[11] == 48_000_000u32);
}

/// Tracks the current mode and steps through the cycle.
#[derive(Clone, Copy, Debug, PartialEq, Eq, Structural)]
pub struct ModeSequencer {
    pub mode: ClockMode,
}

impl ModeSequencer {
    /// Starts at the reset mode.
    pub fn new() -> (r: Self)
        ensures
            r.mode == ClockMode::Reset4MHz,
    {
        ModeSequencer { mode: ClockMode::Reset4MHz }
    }

    /// Moves to the next mode on a confirmed click and returns it.
    pub fn advance(&mut self) -> (r: ClockMode)
        ensures
            r == old(self).mode.next_spec(),
            final(self).mode == r,
    {
        self.mode = self.mode.next();
        self.mode
    }
}

} // verus!

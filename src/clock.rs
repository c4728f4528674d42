//! Clock model: the core clock frequency and flash wait states that a clock
//! configuration yields.
use vstd::prelude::*;

verus! {

/// Internal 16 MHz RC oscillator.
pub const HSI16_CLK: u32 = 16_000_000;

/// High-speed external clock as wired on this board.
pub const HSE_CLK: u32 = 48_000_000;

/// Core clock that one flash wait state covers.
pub const HZ_PER_WAIT_STATE: u32 = 16_000_000;

/// Source of the system clock (field `RCC_CFGR.SW` / `SWS`).
#[derive(Clone, Copy, Debug, PartialEq, Eq, Structural)]
pub enum ClockSource {
    Msi,
    Hsi16,
    Hse,
    Pll,
}

/// Input of the main PLL (field `RCC_PLLCFGR.PLLSRC`).
#[derive(Clone, Copy, Debug, PartialEq, Eq, Structural)]
pub enum PllSource {
    NoClock,
    Msi,
    Hsi16,
    Hse,
}

/// A requested clock-tree operating point.
#[derive(Clone, Copy, Debug, PartialEq, Eq, Structural)]
pub struct ClockConfig {
    pub clock_source: ClockSource,
    pub pll_source: PllSource,
    /// PLL input divider, at least 1.
    pub pll_m: u32,
    /// PLL multiplier.
    pub pll_n: u32,
    /// PLL output divider, even and at least 2.
    pub pll_r: u32,
    /// Index into the MSI range table, `0..=11`.
    pub msi_range: u32,
}

/// Core clock frequency and the flash wait states it needs.
#[derive(Clone, Copy, Debug, PartialEq, Eq, Structural)]
pub struct DerivedClock {
    pub hclk_hz: u32,
    pub flash_wait_states: u32,
}

impl ClockSource {
    /// The two-bit encoding of `SW` / `SWS`.
    pub open spec fn bits_spec(self) -> u32 {
        match self {
            ClockSource::Msi => 0,
            ClockSource::Hsi16 => 1,
            ClockSource::Hse => 2,
            ClockSource::Pll => 3,
        }
    }

    /// Decodes `SWS`; bits above the field select MSI, as the reset default.
    pub open spec fn from_bits_spec(bits: u32) -> ClockSource {
        if bits == 1 {
            ClockSource::Hsi16
        } else if bits == 2 {
            ClockSource::Hse
        } else if bits == 3 {
            ClockSource::Pll
        } else {
            ClockSource::Msi
        }
    }

    pub fn bits(self) -> (r: u32)
        ensures
            r == self.bits_spec(),
    {
        match self {
            ClockSource::Msi => 0,
            ClockSource::Hsi16 => 1,
            ClockSource::Hse => 2,
            ClockSource::Pll => 3,
        }
    }

    pub fn from_bits(bits: u32) -> (r: ClockSource)
        ensures
            r == Self::from_bits_spec(bits),
    {
        if bits == 1 {
            ClockSource::Hsi16
        } else if bits == 2 {
            ClockSource::Hse
        } else if bits == 3 {
            ClockSource::Pll
        } else {
            ClockSource::Msi
        }
    }
}

impl PllSource {
    /// The two-bit encoding of `PLLSRC`.
    pub open spec fn bits_spec(self) -> u32 {
        match self {
            PllSource::NoClock => 0,
            PllSource::Msi => 1,
            PllSource::Hsi16 => 2,
            PllSource::Hse => 3,
        }
    }

    /// Decodes `PLLSRC`; bits above the field mean no input.
    pub open spec fn from_bits_spec(bits: u32) -> PllSource {
        if bits == 1 {
            PllSource::Msi
        } else if bits == 2 {
            PllSource::Hsi16
        } else if bits == 3 {
            PllSource::Hse
        } else {
            PllSource::NoClock
        }
    }

    pub fn bits(self) -> (r: u32)
        ensures
            r == self.bits_spec(),
    {
        match self {
            PllSource::NoClock => 0,
            PllSource::Msi => 1,
            PllSource::Hsi16 => 2,
            PllSource::Hse => 3,
        }
    }

    pub fn from_bits(bits: u32) -> (r: PllSource)
        ensures
            r == Self::from_bits_spec(bits),
    {
        if bits == 1 {
            PllSource::Msi
        } else if bits == 2 {
            PllSource::Hsi16
        } else if bits == 3 {
            PllSource::Hse
        } else {
            PllSource::NoClock
        }
    }
}

/// The MSI frequency of each range, in Hz.
pub open spec fn msi_table_spec() -> Seq<u32> {
    seq![
        100_000u32, 200_000, 400_000, 800_000, 1_000_000, 2_000_000, 4_000_000, 8_000_000,
        16_000_000, 24_000_000, 32_000_000, 48_000_000,
    ]
}

/// The MSI range table of the device, 100 kHz to 48 MHz.
pub fn msi_range_table() -> (r: [u32; 12])
    ensures
        r@ == msi_table_spec(),
{
    let r: [u32; 12] = [
        100_000, 200_000, 400_000, 800_000, 1_000_000, 2_000_000, 4_000_000, 8_000_000,
        16_000_000, 24_000_000, 32_000_000, 48_000_000,
    ];
    assert(r@ =~= msi_table_spec());
    r
}

impl ClockConfig {
    /// The invariant of a configuration: a nonzero PLL input divider, an even
    /// PLL output divider of at least 2, and an MSI range inside the table.
    pub open spec fn wf(self) -> bool {
        &&& self.pll_m >= 1
        &&& self.pll_r >= 2
        &&& self.pll_r % 2 == 0
        &&& self.msi_range < 12
    }
}

/// Frequency of the oscillator feeding the PLL.
pub open spec fn pll_input_hz(src: PllSource, msi_hz: int) -> int {
    match src {
        PllSource::NoClock => 0,
        PllSource::Msi => msi_hz,
        PllSource::Hsi16 => HSI16_CLK as int,
        PllSource::Hse => HSE_CLK as int,
    }
}

/// PLL output: `(input / m) * n / r`, with truncating divisions.
pub open spec fn pll_output_hz(cfg: ClockConfig, msi_hz: int) -> int {
    (pll_input_hz(cfg.pll_source, msi_hz) / (cfg.pll_m as int)) * (cfg.pll_n as int)
        / (cfg.pll_r as int)
}

/// Core clock frequency of `cfg` given the MSI range table.
pub open spec fn hclk_spec(cfg: ClockConfig, msi_table: Seq<u32>) -> int {
    let msi_hz = msi_table[cfg.msi_range as int] as int;
    match cfg.clock_source {
        ClockSource::Msi => msi_hz,
        ClockSource::Hsi16 => HSI16_CLK as int,
        ClockSource::Hse => HSE_CLK as int,
        ClockSource::Pll => pll_output_hz(cfg, msi_hz),
    }
}

/// One flash wait state for each full 16 MHz of core clock.
pub open spec fn wait_states_spec(hclk: int) -> int {
    hclk / (HZ_PER_WAIT_STATE as int)
}


/// The derived clock of `cfg`, as a pair of integers.
pub open spec fn derived_spec(cfg: ClockConfig, msi_table: Seq<u32>) -> DerivedClock {
    DerivedClock {
        hclk_hz: hclk_spec(cfg, msi_table) as u32,
        flash_wait_states: wait_states_spec(hclk_spec(cfg, msi_table)) as u32,
    }
}

proof fn lemma_pll_output_bounds(input: int, m: int, n: int, r: int)
    requires
        0 <= input <= u32::MAX,
        m >= 1,
        0 <= n <= u32::MAX,
        r >= 2,
    ensures
        0 <= input / m <= input,
        0 <= (input / m) * n <= u32::MAX * u32::MAX,
        0 <= (input / m) * n / r,
{
    assert(0 <= input / m <= input) by (nonlinear_arith)
        requires
            0 <= input,
            m >= 1,
    ;
    let q = input / m;
    assert(0 <= q * n <= u32::MAX * u32::MAX) by (nonlinear_arith)
        requires
            0 <= q <= u32::MAX,
            0 <= n <= u32::MAX,
    ;
    assert(0 <= (q * n) / r) by (nonlinear_arith)
        requires
            0 <= q * n,
            r >= 2,
    ;
}

/// The core clock of a well-formed `cfg`, computed in 64 bits so that any
/// table and multiplier fit.
pub fn hclk_u64(cfg: &ClockConfig, msi_table: &[u32; 12]) -> (r: u64)
    requires
        cfg.wf(),
    ensures
        r as int == hclk_spec(*cfg, msi_table@),
{
    let msi_hz: u32 = msi_table[cfg.msi_range as usize];
    match cfg.clock_source {
        ClockSource::Msi => msi_hz as u64,
        ClockSource::Hsi16 => HSI16_CLK as u64,
        ClockSource::Hse => HSE_CLK as u64,
        ClockSource::Pll => {
            let input: u32 = match cfg.pll_source {
                PllSource::NoClock => 0,
                PllSource::Msi => msi_hz,
                PllSource::Hsi16 => HSI16_CLK,
                PllSource::Hse => HSE_CLK,
            };
            proof {
                lemma_pll_output_bounds(
                    input as int,
                    cfg.pll_m as int,
                    cfg.pll_n as int,
                    cfg.pll_r as int,
                );
            }
            let vco_in: u64 = (input / cfg.pll_m) as u64;
            let vco: u64 = vco_in * (cfg.pll_n as u64);
            vco / (cfg.pll_r as u64)
        },
    }
}

/// Computes the core clock frequency of `cfg` and the flash wait states it
/// needs. Reads nothing but its arguments.
pub fn derive_clock(cfg: &ClockConfig, msi_table: &[u32; 12]) -> (r: DerivedClock)
    requires
        cfg.wf(),
        hclk_spec(*cfg, msi_table@) <= u32::MAX,
    ensures
        r.hclk_hz as int == hclk_spec(*cfg, msi_table@),
        r.flash_wait_states as int == wait_states_spec(hclk_spec(*cfg, msi_table@)),
        r == derived_spec(*cfg, msi_table@),
{
    let hclk: u32 = hclk_u64(cfg, msi_table) as u32;
    DerivedClock { hclk_hz: hclk, flash_wait_states: hclk / HZ_PER_WAIT_STATE }
}

/// Deriving the clock depends on the configuration and the table alone:
/// equal inputs give equal results, however often `derive_clock` is called,
/// and `derive_clock` reads both inputs through shared references only.
pub proof fn lemma_derive_clock_deterministic(
    c1: ClockConfig,
    c2: ClockConfig,
    t1: Seq<u32>,
    t2: Seq<u32>,
)
    requires
        c1 == c2,
        t1 == t2,
    ensures
        derived_spec(c1, t1) == derived_spec(c2, t2),
        hclk_spec(c1, t1) == hclk_spec(c2, t2),
{
}

/// Why a configuration cannot be applied.
#[derive(Clone, Copy, Debug, PartialEq, Eq, Structural)]
pub enum ConfigFault {
    /// `pll_m` is outside `1..=8`, the range of the 3-bit `PLLM` field.
    PllDividerM,
    /// `pll_r` is not one of 2, 4, 6, 8, the values of the 2-bit `PLLR` field.
    PllDividerR,
    /// `pll_n` does not fit the 7-bit `PLLN` field.
    PllMultiplierN,
    /// `msi_range` is outside the 12-entry table.
    MsiRange,
    /// The configuration yields a core clock of 0 Hz.
    DegenerateFrequency,
    /// The core clock does not fit in 32 bits.
    FrequencyTooHigh,
}

/// Largest `PLLM` divider.
pub const PLL_M_MAX: u32 = 8;

/// Largest `PLLR` divider.
pub const PLL_R_MAX: u32 = 8;

/// Largest value of the `PLLN` field.
pub const PLL_N_MAX: u32 = 127;

/// The PLL and MSI fields fit their register fields.
pub open spec fn fields_fit(cfg: ClockConfig) -> bool {
    &&& 1 <= cfg.pll_m <= PLL_M_MAX
    &&& 2 <= cfg.pll_r <= PLL_R_MAX
    &&& cfg.pll_r % 2 == 0
    &&& cfg.pll_n <= PLL_N_MAX
    &&& cfg.msi_range < 12
}

/// The first fault of `cfg`, checked field by field and then on the
/// frequency; `None` when it can be applied.
pub open spec fn config_fault(cfg: ClockConfig, msi_table: Seq<u32>) -> Option<ConfigFault> {
    if !(1 <= cfg.pll_m <= PLL_M_MAX) {
        Some(ConfigFault::PllDividerM)
    } else if !(2 <= cfg.pll_r <= PLL_R_MAX && cfg.pll_r % 2 == 0) {
        Some(ConfigFault::PllDividerR)
    } else if cfg.pll_n > PLL_N_MAX {
        Some(ConfigFault::PllMultiplierN)
    } else if cfg.msi_range >= 12 {
        Some(ConfigFault::MsiRange)
    } else if hclk_spec(cfg, msi_table) == 0 {
        Some(ConfigFault::DegenerateFrequency)
    } else if hclk_spec(cfg, msi_table) > u32::MAX {
        Some(ConfigFault::FrequencyTooHigh)
    } else {
        None
    }
}

impl ClockConfig {
    /// Checks `self` before it is applied: `Ok` with its derived clock when
    /// it has no fault, else the first fault.
    pub fn validate(&self, msi_table: &[u32; 12]) -> (r: Result<DerivedClock, ConfigFault>)
        ensures
            config_fault(*self, msi_table@) is None ==> r == Ok::<DerivedClock, ConfigFault>(
                derived_spec(*self, msi_table@),
            ),
            config_fault(*self, msi_table@) matches Some(f) ==> r == Err::<DerivedClock, ConfigFault>(f),
            r is Ok ==> fields_fit(*self) && hclk_spec(*self, msi_table@) > 0,
    {
        if !(1 <= self.pll_m && self.pll_m <= PLL_M_MAX) {
            return Err(ConfigFault::PllDividerM);
        }
        if !(2 <= self.pll_r && self.pll_r <= PLL_R_MAX && self.pll_r % 2 == 0) {
            return Err(ConfigFault::PllDividerR);
        }
        if self.pll_n > PLL_N_MAX {
            return Err(ConfigFault::PllMultiplierN);
        }
        if self.msi_range >= 12 {
            return Err(ConfigFault::MsiRange);
        }
        let hclk: u64 = hclk_u64(self, msi_table);
        if hclk == 0 {
            return Err(ConfigFault::DegenerateFrequency);
        }
        if hclk > u32::MAX as u64 {
            return Err(ConfigFault::FrequencyTooHigh);
        }
        Ok(derive_clock(self, msi_table))
    }
}

} // verus!

//! Clock-tree controller: the ordered register writes that apply or reset a
//! clock configuration, and the flash latency that the live registers call
//! for once the new clock runs.
use vstd::prelude::*;
use crate::clock::{
    ClockConfig, ClockSource, ConfigFault, DerivedClock, PllSource, config_fault, derived_spec,
    derive_clock, fields_fit, hclk_spec, msi_range_table, msi_table_spec,
};

verus! {

/// Largest value of the 4-bit flash `LATENCY` field.
pub const FLASH_LATENCY_MAX: u32 = 15;

/// Flash latency set before the clock is raised: enough for every mode of
/// the cycle, up to 96 MHz.
pub const FLASH_LATENCY_WIDE: u32 = 5;

/// Baud rate of the trace output (SWO).
pub const SWO_BAUD_RATE: u32 = 115_200;

/// Core clock right after a reset of the clock tree (MSI at 4 MHz).
pub const RESET_HCLK: u32 = 4_000_000;

/// APB1 prescaler written with every configuration (`PPRE1`).
pub const APB1_PRESCALER: u32 = 0b110;

/// MSI range of the power-on default (4 MHz).
pub const MSI_RANGE_DEFAULT: u32 = 6;

/// One hardware operation, in the order the controller issues them.
#[derive(Clone, Copy, Debug, PartialEq, Eq, Structural)]
pub enum HwOp {
    /// Write the flash read latency.
    SetFlashLatency(u32),
    /// Write the APB1 prescaler field.
    SetApb1Prescaler(u32),
    /// Start the LSE oscillator and wait until it is ready.
    StartLse,
    /// Start the MSI oscillator at the given range and wait until it is ready.
    StartMsi(u32),
    /// Start HSI16 and wait until it is ready.
    StartHsi16,
    /// Switch the PLL off and wait until it has stopped.
    StopPll,
    /// Write the PLL configuration fields as encoded in the register.
    ConfigurePll { src_bits: u32, m_bits: u32, n_bits: u32, r_bits: u32 },
    /// Switch the PLL on and wait until it locks.
    StartPll,
    /// Write the system clock switch.
    SelectSysClock(u32),
    /// Write the clock configuration register and the APB1 enable register
    /// back to their defaults.
    ResetRcc,
    /// Switch the LSE oscillator off.
    ResetLse,
    /// Switch the PLL off, restore its configuration register, and wait
    /// until it has stopped.
    ResetPll,
    /// Switch the MSI oscillator and its PLL mode off.
    ResetMsi,
    /// Switch HSI16 off.
    ResetHsi16,
    /// Write the trace output prescaler, so that the baud rate follows the
    /// core clock.
    SetTracePrescaler(u32),
}

/// Where the controller is in a mode transition.
#[derive(Clone, Copy, Debug, PartialEq, Eq, Structural)]
pub enum ControllerPhase {
    Idle,
    Configuring,
    Stable,
}

/// Why the controller refused a request.
#[derive(Clone, Copy, Debug, PartialEq, Eq, Structural)]
pub enum ApplyError {
    /// `apply` was called before `reset`.
    NotIdle,
    /// `complete` was called with no configuration being applied.
    NotConfiguring,
    /// The requested configuration has a fault.
    Fault(ConfigFault),
    /// The register readback holds values that no configuration produces.
    BadReadback,
}

/// Fields read back from the live registers.
#[derive(Clone, Copy, Debug, PartialEq, Eq, Structural)]
pub struct ClockReadback {
    /// `RCC_CFGR.SWS`.
    pub sws: u32,
    /// `RCC_PLLCFGR.PLLSRC`.
    pub pllsrc: u32,
    /// `RCC_PLLCFGR.PLLN`.
    pub plln: u32,
    /// `RCC_PLLCFGR.PLLR`, encoded: 0 means a divider of 2, 3 one of 8.
    pub pllr_bits: u32,
    /// `RCC_CR.MSIRANGE`.
    pub msi_range: u32,
}

/// The configuration that the live registers hold, with the PLL input
/// divider that was requested.
pub open spec fn readback_config(rb: ClockReadback, pll_m: u32) -> ClockConfig {
    ClockConfig {
        clock_source: ClockSource::from_bits_spec(rb.sws),
        pll_source: PllSource::from_bits_spec(rb.pllsrc),
        pll_m: pll_m,
        pll_n: rb.plln,
        pll_r: ((rb.pllr_bits + 1) * 2) as u32,
        msi_range: rb.msi_range,
    }
}

/// The readback fits its register fields.
pub open spec fn readback_ok(rb: ClockReadback, pll_m: u32) -> bool {
    &&& rb.pllr_bits < 4
    &&& rb.msi_range < 12
    &&& rb.plln <= crate::clock::PLL_N_MAX
    &&& 1 <= pll_m
    &&& hclk_spec(readback_config(rb, pll_m), msi_table_spec()) <= u32::MAX
}

/// The clock that the live registers give: `None` where a field holds a
/// value outside its range or the frequency does not fit in 32 bits.
pub fn clock_from_readback(rb: &ClockReadback, pll_m: u32) -> (r: Option<DerivedClock>)
    ensures
        readback_ok(*rb, pll_m) ==> r == Some(derived_spec(readback_config(*rb, pll_m), msi_table_spec())),
        !readback_ok(*rb, pll_m) ==> r is None,
{
    if rb.pllr_bits >= 4 || rb.msi_range >= 12 || rb.plln > crate::clock::PLL_N_MAX || pll_m < 1 {
        return None;
    }
    let cfg = ClockConfig {
        clock_source: ClockSource::from_bits(rb.sws),
        pll_source: PllSource::from_bits(rb.pllsrc),
        pll_m: pll_m,
        pll_n: rb.plln,
        pll_r: (rb.pllr_bits + 1) * 2,
        msi_range: rb.msi_range,
    };
    assert(cfg == readback_config(*rb, pll_m));
    let table = msi_range_table();
    let wide = crate::clock::hclk_u64(&cfg, &table);
    if wide > u32::MAX as u64 {
        return None;
    }
    Some(derive_clock(&cfg, &table))
}

/// Flash latency for `wait_states`, held to the width of the field.
pub open spec fn latency_spec(wait_states: u32) -> u32 {
    if wait_states > FLASH_LATENCY_MAX { FLASH_LATENCY_MAX } else { wait_states }
}

/// Flash latency for the core clock `d`.
pub fn settled_latency(d: &DerivedClock) -> (r: u32)
    ensures
        r == latency_spec(d.flash_wait_states),
{
    if d.flash_wait_states > FLASH_LATENCY_MAX {
        FLASH_LATENCY_MAX
    } else {
        d.flash_wait_states
    }
}

/// HSI16 runs when it is the system clock or the PLL input.
pub open spec fn needs_hsi16(cfg: ClockConfig) -> bool {
    cfg.clock_source == ClockSource::Hsi16 || cfg.pll_source == PllSource::Hsi16
}

/// Trace prescaler for core clock `hclk`: `hclk / baud - 1`, and 0 where
/// the clock is below the baud rate.
pub open spec fn trace_prescaler_spec(hclk: int) -> u32 {
    if hclk / (SWO_BAUD_RATE as int) >= 1 {
        (hclk / (SWO_BAUD_RATE as int) - 1) as u32
    } else {
        0
    }
}

/// The trace prescaler that keeps the trace baud rate at core clock `hclk`.
pub fn trace_prescaler(hclk: u32) -> (r: u32)
    ensures
        r == trace_prescaler_spec(hclk as int),
{
    let q: u32 = hclk / SWO_BAUD_RATE;
    if q >= 1 {
        q - 1
    } else {
        0
    }
}

/// What `complete` hands back: the live clock, then the trace prescaler
/// write and the flash latency write that follow it.
#[derive(Clone, Copy, Debug, PartialEq, Eq, Structural)]
pub struct Settled {
    pub clock: DerivedClock,
    pub trace: HwOp,
    pub latency: HwOp,
}

/// The PLL configuration write for `cfg`: `PLLM` holds `m - 1`, `PLLR`
/// holds `r / 2 - 1`.
pub open spec fn pll_config_op(cfg: ClockConfig) -> HwOp {
    HwOp::ConfigurePll {
        src_bits: cfg.pll_source.bits_spec(),
        m_bits: (cfg.pll_m - 1) as u32,
        n_bits: cfg.pll_n,
        r_bits: (cfg.pll_r / 2 - 1) as u32,
    }
}

/// The writes that bring up `cfg`, in dependency order: widen the flash
/// latency to `FLASH_LATENCY_WIDE`, set the bus prescaler, start LSE and
/// MSI, start HSI16 where the mode uses it, reprogram and relock the PLL
/// where it is the system clock, and last switch the system clock.
///
/// No trace prescaler write stands among them: the core clock changes only
/// at the final switch, so starting HSI16 leaves the trace baud rate as it
/// was. The prescaler for the new clock comes with `complete`, once the
/// live registers confirm that clock.
pub open spec fn apply_ops_spec(cfg: ClockConfig) -> Seq<HwOp> {
    seq![
        HwOp::SetFlashLatency(FLASH_LATENCY_WIDE),
        HwOp::SetApb1Prescaler(APB1_PRESCALER),
        HwOp::StartLse,
        HwOp::StartMsi(cfg.msi_range),
    ] + (if needs_hsi16(cfg) {
        seq![HwOp::StartHsi16]
    } else {
        Seq::empty()
    }) + (if cfg.clock_source == ClockSource::Pll {
        seq![HwOp::StopPll, pll_config_op(cfg), HwOp::StartPll]
    } else {
        Seq::empty()
    }) + seq![HwOp::SelectSysClock(cfg.clock_source.bits_spec())]
}

/// The writes that return every oscillator, the PLL and the clock switch to
/// their power-on defaults, and set the trace prescaler for the 4 MHz
/// clock that follows.
pub open spec fn reset_ops_spec() -> Seq<HwOp> {
    seq![
        HwOp::ResetRcc,
        HwOp::ResetLse,
        HwOp::ResetPll,
        HwOp::ResetMsi,
        HwOp::ResetHsi16,
        HwOp::SetTracePrescaler(trace_prescaler_spec(RESET_HCLK as int)),
    ]
}

/// The power-on clock configuration: MSI at 4 MHz, PLL without input.
pub open spec fn default_config_spec() -> ClockConfig {
    ClockConfig {
        clock_source: ClockSource::Msi,
        pll_source: PllSource::NoClock,
        pll_m: 1,
        pll_n: 10,
        pll_r: 2,
        msi_range: MSI_RANGE_DEFAULT,
    }
}

pub fn default_config() -> (r: ClockConfig)
    ensures
        r == default_config_spec(),
{
    ClockConfig {
        clock_source: ClockSource::Msi,
        pll_source: PllSource::NoClock,
        pll_m: 1,
        pll_n: 10,
        pll_r: 2,
        msi_range: MSI_RANGE_DEFAULT,
    }
}

/// The writes that follow a change to clock `d`: the trace prescaler, then
/// the flash latency narrowed to exactly what `d` needs.
pub open spec fn settled_spec(d: DerivedClock) -> Settled {
    Settled {
        clock: d,
        trace: HwOp::SetTracePrescaler(trace_prescaler_spec(d.hclk_hz as int)),
        latency: HwOp::SetFlashLatency(latency_spec(d.flash_wait_states)),
    }
}

/// What `complete` returns for controller `c` and readback `rb`.
pub open spec fn complete_result(c: ClockTreeController, rb: ClockReadback) -> Result<Settled, ApplyError> {
    if c.phase != ControllerPhase::Configuring {
        Err(ApplyError::NotConfiguring)
    } else if !readback_ok(rb, c.target.pll_m) {
        Err(ApplyError::BadReadback)
    } else {
        let d = derived_spec(readback_config(rb, c.target.pll_m), msi_table_spec());
        Ok(settled_spec(d))
    }
}

/// Sequences clock-tree changes: reset, then apply, then complete against
/// the live registers.
#[derive(Clone, Copy, Debug, PartialEq, Eq, Structural)]
pub struct ClockTreeController {
    pub phase: ControllerPhase,
    /// The configuration last applied, or the power-on one.
    pub target: ClockConfig,
}

impl ClockTreeController {
    /// While a configuration is applied or runs, it fits its fields.
    pub open spec fn wf(self) -> bool {
        self.phase != ControllerPhase::Idle ==> fields_fit(self.target)
    }

    pub fn new() -> (r: Self)
        ensures
            r.phase == ControllerPhase::Idle,
            r.target == default_config_spec(),
            r.wf(),
    {
        ClockTreeController { phase: ControllerPhase::Idle, target: default_config() }
    }

    /// Returns the writes that reset the clock tree, and goes back to idle.
    pub fn reset(&mut self) -> (r: Vec<HwOp>)
        ensures
            r@ == reset_ops_spec(),
            final(self).phase == ControllerPhase::Idle,
            final(self).target == default_config_spec(),
            final(self).wf(),
    {
        self.phase = ControllerPhase::Idle;
        self.target = default_config();
        let mut ops: Vec<HwOp> = Vec::new();
        ops.push(HwOp::ResetRcc);
        ops.push(HwOp::ResetLse);
        ops.push(HwOp::ResetPll);
        ops.push(HwOp::ResetMsi);
        ops.push(HwOp::ResetHsi16);
        ops.push(HwOp::SetTracePrescaler(trace_prescaler(RESET_HCLK)));
        assert(ops@ =~= reset_ops_spec());
        ops
    }

    /// Starts applying `cfg`: from idle and for a configuration without
    /// fault, returns the writes that bring it up and moves to configuring.
    /// Otherwise returns the error and changes nothing.
    pub fn apply(&mut self, cfg: &ClockConfig) -> (r: Result<Vec<HwOp>, ApplyError>)
        ensures
            old(self).phase != ControllerPhase::Idle ==> r == Err::<Vec<HwOp>, ApplyError>(
                ApplyError::NotIdle,
            ),
            old(self).phase == ControllerPhase::Idle ==> (config_fault(*cfg, msi_table_spec()) matches Some(f)
                ==> r == Err::<Vec<HwOp>, ApplyError>(ApplyError::Fault(f))),
            r is Err ==> *final(self) == *old(self),
            old(self).phase == ControllerPhase::Idle && config_fault(*cfg, msi_table_spec()) is None
                ==> r is Ok,
            r matches Ok(ops) ==> ops@ == apply_ops_spec(*cfg) && final(self).phase
                == ControllerPhase::Configuring && final(self).target == *cfg,
            old(self).wf() ==> final(self).wf(),
    {
        if self.phase != ControllerPhase::Idle {
            return Err(ApplyError::NotIdle);
        }
        let table = msi_range_table();
        match cfg.validate(&table) {
            Err(f) => {
                return Err(ApplyError::Fault(f));
            },
            Ok(_) => {},
        }
        let mut ops: Vec<HwOp> = Vec::new();
        ops.push(HwOp::SetFlashLatency(FLASH_LATENCY_WIDE));
        ops.push(HwOp::SetApb1Prescaler(APB1_PRESCALER));
        ops.push(HwOp::StartLse);
        ops.push(HwOp::StartMsi(cfg.msi_range));
        let is_pll = cfg.clock_source == ClockSource::Pll;
        if cfg.clock_source == ClockSource::Hsi16 || cfg.pll_source == PllSource::Hsi16 {
            ops.push(HwOp::StartHsi16);
        }
        if is_pll {
            ops.push(HwOp::StopPll);
            ops.push(
                HwOp::ConfigurePll {
                    src_bits: cfg.pll_source.bits(),
                    m_bits: cfg.pll_m - 1,
                    n_bits: cfg.pll_n,
                    r_bits: cfg.pll_r / 2 - 1,
                },
            );
            ops.push(HwOp::StartPll);
        }
        ops.push(HwOp::SelectSysClock(cfg.clock_source.bits()));
        assert(ops@ =~= apply_ops_spec(*cfg));
        self.phase = ControllerPhase::Configuring;
        self.target = *cfg;
        Ok(ops)
    }

    /// Finishes a transition from the live register readback: returns the
    /// clock it gives, the trace prescaler write for that clock, and the
    /// flash latency write that narrows the latency to exactly what that
    /// clock needs, and moves to stable.
    pub fn complete(&mut self, rb: &ClockReadback) -> (r: Result<Settled, ApplyError>)
        requires
            old(self).wf(),
        ensures
            r == complete_result(*old(self), *rb),
            r is Ok ==> final(self).phase == ControllerPhase::Stable && final(self).target == old(self).target,
            old(self).phase != ControllerPhase::Configuring ==> r == Err::<Settled, ApplyError>(
                ApplyError::NotConfiguring,
            ),
            old(self).phase == ControllerPhase::Configuring && !readback_ok(*rb, old(self).target.pll_m)
                ==> r == Err::<Settled, ApplyError>(ApplyError::BadReadback),
            r is Err ==> *final(self) == *old(self),
            old(self).phase == ControllerPhase::Configuring && readback_ok(*rb, old(self).target.pll_m)
                ==> {
                let d = derived_spec(readback_config(*rb, old(self).target.pll_m), msi_table_spec());
                &&& r == Ok::<Settled, ApplyError>(settled_spec(d))
                &&& final(self).phase == ControllerPhase::Stable
                &&& final(self).target == old(self).target
            },
            final(self).wf(),
    {
        if self.phase != ControllerPhase::Configuring {
            return Err(ApplyError::NotConfiguring);
        }
        match clock_from_readback(rb, self.target.pll_m) {
            None => Err(ApplyError::BadReadback),
            Some(d) => {
                let latency = settled_latency(&d);
                self.phase = ControllerPhase::Stable;
                let trace = trace_prescaler(d.hclk_hz);
                Ok(
                    Settled {
                        clock: d,
                        trace: HwOp::SetTracePrescaler(trace),
                        latency: HwOp::SetFlashLatency(latency),
                    },
                )
            },
        }
    }
}

} // verus!

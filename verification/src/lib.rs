//! Clock tree configuration engine for an STM32F4-class microcontroller.
//!
//! The crate derives every downstream clock frequency from a declarative
//! [`ClockInit`] configuration, checks each derived value against the chip's
//! electrical limits before any register would be touched, and plans the
//! hazard-free order in which the oscillator, PLL, flash wait-state,
//! prescaler and clock-switch registers must be programmed. The raw
//! register-access layer is an external collaborator: the [`sequence`]
//! module emits a plan of abstract register actions, and a thin hardware
//! shim executes them.

use vstd::prelude::*;

pub mod constants;
pub mod sequence;
pub mod settings;

use crate::constants::{
    spec_ahb_scale, spec_apbx_scale, spec_pll_p_scale, ahb_scale, apbx_scale, pll_p_scale,
    HSI_FREQ, HSE_FREQ, VCO_MIN, VCO_MAX, PLL_INPUT_TARGET, PLL_OUTPUT_MAX, HCLK_MAX,
    PCLK2_MAX, PCLK1_MAX,
};
use crate::settings::{AHBFactor, APBxFactor, ClockSource, PLLP, SysTickSource};

verus! {

/// Caller-supplied bitmasks for the five peripheral clock-enable registers.
/// The engine writes them verbatim; it does not interpret individual bits.
#[derive(Copy, Clone, Debug, PartialEq, Eq, Structural)]
pub struct PeripheralEnables {
    pub ahb1: u32,
    pub ahb2: u32,
    pub ahb3: u32,
    pub apb1: u32,
    pub apb2: u32,
}

/// One full declarative description of the desired clock tree.
///
/// Every enumerated field is a closed set of hardware-legal values; the two
/// raw numeric PLL fields (`pll_n`, `pll_m`) are range-checked by the
/// validator rather than by the type.
#[derive(Copy, Clone, Debug)]
pub struct ClockInit {
    /// `Some(true)`: the PLL is fed from the external oscillator;
    /// `Some(false)`: from the internal oscillator; `None`: PLL stays off.
    pub pll_source_hse: Option<bool>,
    /// Which source drives the system clock.
    pub sys_source: ClockSource,
    /// Input tap for the system tick counter.
    pub systick_source: SysTickSource,
    /// Selects the alternate timer-clock doubling rule.
    pub timpre: bool,
    /// Secondary PLL output divider, used for auxiliary clocks.
    pub pll_q: u8,
    /// Primary PLL output divider.
    pub pll_p: PLLP,
    /// VCO multiplier.
    pub pll_n: u16,
    /// PLL input divider.
    pub pll_m: u8,
    /// High-speed bus prescaler.
    pub ahb_pre: AHBFactor,
    /// Fast peripheral bus prescaler.
    pub apb2_pre: APBxFactor,
    /// Slow peripheral bus prescaler.
    pub apb1_pre: APBxFactor,
    /// Peripheral clock-enable bitmasks, applied after the tree is stable.
    pub periph_enable: PeripheralEnables,
}

/// Every derived clock frequency, in Hz, computed once per configuration
/// pass and returned to the caller for dependent timing code.
#[derive(Copy, Clone, Debug, PartialEq, Eq, Structural)]
pub struct ClockSpeeds {
    pub pll_input: u32,
    pub pll_output: u32,
    pub sysclk: u32,
    pub hclk: u32,
    pub pclk2: u32,
    pub pclk1: u32,
    pub tim2clk: u32,
    pub tim1clk: u32,
    pub systickclk: u32,
}

/// The specific constraint a rejected configuration violates.
#[derive(Copy, Clone, Debug, PartialEq, Eq, Structural)]
pub enum ClockError {
    /// The VCO frequency lies outside its inclusive legal range.
    InvalidVcoRange,
    /// The PLL input frequency after the input divider is not the one
    /// frequency at which phase locking is characterized.
    InvalidPllInput,
    /// The PLL output frequency exceeds its ceiling.
    PllOutputTooHigh,
    /// The high-speed bus frequency exceeds its absolute ceiling.
    HclkTooHigh,
    /// The fast peripheral bus frequency exceeds its ceiling.
    Pclk2TooHigh,
    /// The slow peripheral bus frequency exceeds its ceiling.
    Pclk1TooHigh,
    /// The high-speed bus frequency exceeds the no-overdrive ceiling and
    /// overdrive has not been enabled by the caller.
    OverdriveRequired,
    /// The flash wait-state count needed for the high-speed bus frequency
    /// exceeds what the hardware supports.
    InvalidFlashLatency,
}

/// Nominal frequency of the oscillator feeding the PLL.
pub open spec fn spec_pll_base(c: ClockInit) -> int {
    if c.pll_source_hse == Some(true) {
        HSE_FREQ as int
    } else {
        HSI_FREQ as int
    }
}

/// PLL input frequency: the reference divided by the input divider.
/// A zero divider cannot produce the required input frequency; it is read
/// here as zero so the validator rejects it.
pub open spec fn spec_pll_input(c: ClockInit) -> int {
    if c.pll_m == 0 {
        0
    } else {
        spec_pll_base(c) / c.pll_m as int
    }
}

/// VCO frequency: the PLL input multiplied by the VCO multiplier.
pub open spec fn spec_vco(c: ClockInit) -> int {
    spec_pll_input(c) * c.pll_n as int
}

/// PLL output frequency: the VCO divided by the primary output divider.
pub open spec fn spec_pll_output(c: ClockInit) -> int {
    spec_vco(c) / spec_pll_p_scale(c.pll_p) as int
}

/// System clock frequency: the nominal frequency of the selected source.
pub open spec fn spec_sysclk(c: ClockInit) -> int {
    match c.sys_source {
        ClockSource::Hsi => HSI_FREQ as int,
        ClockSource::Hse => HSE_FREQ as int,
        ClockSource::Pll => spec_pll_output(c),
    }
}

/// High-speed bus frequency: the system clock through its prescaler.
pub open spec fn spec_hclk(c: ClockInit) -> int {
    spec_sysclk(c) / spec_ahb_scale(c.ahb_pre) as int
}

/// Fast peripheral bus frequency.
pub open spec fn spec_pclk2(c: ClockInit) -> int {
    spec_hclk(c) / spec_apbx_scale(c.apb2_pre) as int
}

/// Slow peripheral bus frequency.
pub open spec fn spec_pclk1(c: ClockInit) -> int {
    spec_hclk(c) / spec_apbx_scale(c.apb1_pre) as int
}

/// Timer clock fed from the fast peripheral bus, with the hardware's
/// doubling rule: under the alternate rule the timer runs at the bus clock
/// itself while the prescaler factor is at most four and at four times the
/// peripheral clock beyond that; under the plain rule it runs at the
/// peripheral clock for factor one and at twice it otherwise.
pub open spec fn spec_tim2clk(c: ClockInit) -> int {
    if c.timpre {
        if spec_apbx_scale(c.apb2_pre) <= 4 {
            spec_hclk(c)
        } else {
            spec_pclk2(c) * 4
        }
    } else {
        if spec_apbx_scale(c.apb2_pre) == 1 {
            spec_pclk2(c)
        } else {
            spec_pclk2(c) * 2
        }
    }
}

/// Timer clock fed from the slow peripheral bus; same doubling rule.
pub open spec fn spec_tim1clk(c: ClockInit) -> int {
    if c.timpre {
        if spec_apbx_scale(c.apb1_pre) <= 4 {
            spec_hclk(c)
        } else {
            spec_pclk1(c) * 4
        }
    } else {
        if spec_apbx_scale(c.apb1_pre) == 1 {
            spec_pclk1(c)
        } else {
            spec_pclk1(c) * 2
        }
    }
}

/// System tick frequency: the high-speed bus clock, divided by eight unless
/// the direct tap is selected.
pub open spec fn spec_systickclk(c: ClockInit) -> int {
    if c.systick_source == SysTickSource::HclkDiv1 {
        spec_hclk(c)
    } else {
        spec_hclk(c) / 8
    }
}

/// Flash wait-state count required by the high-speed bus frequency.
pub open spec fn spec_flash_latency(c: ClockInit) -> int {
    spec_hclk(c) / crate::constants::FLASH_WAIT_STEP as int
}

/// A configuration is valid when every derived frequency respects the
/// chip's limits.
pub open spec fn valid_config(c: ClockInit) -> bool {
    &&& VCO_MIN <= spec_vco(c) <= VCO_MAX
    &&& spec_pll_input(c) == PLL_INPUT_TARGET
    &&& spec_pll_output(c) <= PLL_OUTPUT_MAX
    &&& spec_hclk(c) <= HCLK_MAX
    &&& spec_pclk2(c) <= PCLK2_MAX
    &&& spec_pclk1(c) <= PCLK1_MAX
}

/// The first constraint, in checking order, that a snapshot of derived
/// frequencies violates, or `None` when all hold.
pub open spec fn spec_speeds_violation(
    pll_input: int,
    vco: int,
    pll_output: int,
    hclk: int,
    pclk2: int,
    pclk1: int,
) -> Option<ClockError> {
    if vco < VCO_MIN || vco > VCO_MAX {
        Some(ClockError::InvalidVcoRange)
    } else if pll_input != PLL_INPUT_TARGET {
        Some(ClockError::InvalidPllInput)
    } else if pll_output > PLL_OUTPUT_MAX {
        Some(ClockError::PllOutputTooHigh)
    } else if hclk > HCLK_MAX {
        Some(ClockError::HclkTooHigh)
    } else if pclk2 > PCLK2_MAX {
        Some(ClockError::Pclk2TooHigh)
    } else if pclk1 > PCLK1_MAX {
        Some(ClockError::Pclk1TooHigh)
    } else {
        None
    }
}

/// The first constraint a configuration's own derived frequencies violate.
pub open spec fn config_violation(c: ClockInit) -> Option<ClockError> {
    spec_speeds_violation(
        spec_pll_input(c),
        spec_vco(c),
        spec_pll_output(c),
        spec_hclk(c),
        spec_pclk2(c),
        spec_pclk1(c),
    )
}

/// A configuration passes when and only when no check names a violation.
pub proof fn lemma_valid_iff_no_violation(c: ClockInit)
    ensures
        valid_config(c) <==> config_violation(c) is None,
{
}

/// Constraint validator over a snapshot of derived frequencies. Applies
/// every range and equality check in a fixed order and reports the first
/// violation; it never clamps a value.
pub fn validate(
    pll_input: u64,
    vco: u64,
    pll_output: u64,
    hclk: u64,
    pclk2: u64,
    pclk1: u64,
) -> (r: Result<(), ClockError>)
    ensures
        r is Ok <==> spec_speeds_violation(
            pll_input as int, vco as int, pll_output as int,
            hclk as int, pclk2 as int, pclk1 as int,
        ) is None,
        r matches Err(e) ==> spec_speeds_violation(
            pll_input as int, vco as int, pll_output as int,
            hclk as int, pclk2 as int, pclk1 as int,
        ) == Some(e),
{
    if vco < VCO_MIN as u64 || vco > VCO_MAX as u64 {
        Err(ClockError::InvalidVcoRange)
    } else if pll_input != PLL_INPUT_TARGET as u64 {
        Err(ClockError::InvalidPllInput)
    } else if pll_output > PLL_OUTPUT_MAX as u64 {
        Err(ClockError::PllOutputTooHigh)
    } else if hclk > HCLK_MAX as u64 {
        Err(ClockError::HclkTooHigh)
    } else if pclk2 > PCLK2_MAX as u64 {
        Err(ClockError::Pclk2TooHigh)
    } else if pclk1 > PCLK1_MAX as u64 {
        Err(ClockError::Pclk1TooHigh)
    } else {
        Ok(())
    }
}

/// Frequency model: computes every derived clock of a valid configuration,
/// with no hardware access and no failure path of its own.
pub fn calculate_clockspeeds(init: &ClockInit) -> (s: ClockSpeeds)
    requires
        valid_config(*init),
    ensures
        s.pll_input == spec_pll_input(*init),
        s.pll_output == spec_pll_output(*init),
        s.sysclk == spec_sysclk(*init),
        s.hclk == spec_hclk(*init),
        s.pclk2 == spec_pclk2(*init),
        s.pclk1 == spec_pclk1(*init),
        s.tim2clk == spec_tim2clk(*init),
        s.tim1clk == spec_tim1clk(*init),
        s.systickclk == spec_systickclk(*init),
{
    let pll_base: u32 = match init.pll_source_hse {
        Some(true) => HSE_FREQ,
        _ => HSI_FREQ,
    };
    assert(init.pll_m != 0) by {
        if init.pll_m == 0 {
            assert(spec_pll_input(*init) == 0);
        }
    }
    let pll_input: u32 = pll_base / init.pll_m as u32;
    let vco: u32 = pll_input * init.pll_n as u32;
    let pll_output: u32 = vco / pll_p_scale(init.pll_p);
    let sysclk: u32 = match init.sys_source {
        ClockSource::Hsi => HSI_FREQ,
        ClockSource::Hse => HSE_FREQ,
        ClockSource::Pll => pll_output,
    };
    let hclk: u32 = sysclk / ahb_scale(init.ahb_pre);
    let apb2pre: u32 = apbx_scale(init.apb2_pre);
    let apb1pre: u32 = apbx_scale(init.apb1_pre);
    let pclk2: u32 = hclk / apb2pre;
    let pclk1: u32 = hclk / apb1pre;
    let tim2clk: u32 = if init.timpre {
        if apb2pre <= 4 { hclk } else { pclk2 * 4 }
    } else {
        if apb2pre == 1 { pclk2 } else { pclk2 * 2 }
    };
    let tim1clk: u32 = if init.timpre {
        if apb1pre <= 4 { hclk } else { pclk1 * 4 }
    } else {
        if apb1pre == 1 { pclk1 } else { pclk1 * 2 }
    };
    let systickclk: u32 = if init.systick_source == SysTickSource::HclkDiv1 {
        hclk
    } else {
        hclk / 8
    };
    ClockSpeeds {
        pll_input,
        pll_output,
        sysclk,
        hclk,
        pclk2,
        pclk1,
        tim2clk,
        tim1clk,
        systickclk,
    }
}

/// Full pre-check pass: derives every frequency of an arbitrary
/// configuration and hands the snapshot to the validator. Succeeds exactly
/// on valid configurations and otherwise reports the first violated
/// constraint, in checking order.
pub fn checked_clockspeeds(init: &ClockInit) -> (r: Result<ClockSpeeds, ClockError>)
    ensures
        r is Ok <==> valid_config(*init),
        r matches Ok(s) ==> {
            &&& s.pll_input == spec_pll_input(*init)
            &&& s.pll_output == spec_pll_output(*init)
            &&& s.sysclk == spec_sysclk(*init)
            &&& s.hclk == spec_hclk(*init)
            &&& s.pclk2 == spec_pclk2(*init)
            &&& s.pclk1 == spec_pclk1(*init)
            &&& s.tim2clk == spec_tim2clk(*init)
            &&& s.tim1clk == spec_tim1clk(*init)
            &&& s.systickclk == spec_systickclk(*init)
        },
        r matches Err(e) ==> config_violation(*init) == Some(e),
{
    let pll_base: u64 = match init.pll_source_hse {
        Some(true) => HSE_FREQ as u64,
        _ => HSI_FREQ as u64,
    };
    let pll_input: u64 = if init.pll_m == 0 {
        0
    } else {
        pll_base / init.pll_m as u64
    };
    assert(pll_input * init.pll_n as u64 <= 16000000 * 65535) by (nonlinear_arith)
        requires
            pll_input <= 16000000,
            init.pll_n as u64 <= 65535,
    ;
    let vco: u64 = pll_input * init.pll_n as u64;
    let pll_output: u64 = vco / pll_p_scale(init.pll_p) as u64;
    let sysclk: u64 = match init.sys_source {
        ClockSource::Hsi => HSI_FREQ as u64,
        ClockSource::Hse => HSE_FREQ as u64,
        ClockSource::Pll => pll_output,
    };
    let hclk: u64 = sysclk / ahb_scale(init.ahb_pre) as u64;
    let pclk2: u64 = hclk / apbx_scale(init.apb2_pre) as u64;
    let pclk1: u64 = hclk / apbx_scale(init.apb1_pre) as u64;
    match validate(pll_input, vco, pll_output, hclk, pclk2, pclk1) {
        Err(e) => Err(e),
        Ok(()) => Ok(calculate_clockspeeds(init)),
    }
}

/// For a PLL fed from the external oscillator, the derived PLL chain is
/// exactly reference divided by the input divider, times the multiplier,
/// divided by the primary output divider's factor.
pub proof fn lemma_pll_derivation(c: ClockInit)
    requires
        c.pll_source_hse == Some(true),
        c.pll_m != 0,
    ensures
        spec_pll_input(c) == HSE_FREQ as int / c.pll_m as int,
        spec_vco(c) == spec_pll_input(c) * c.pll_n as int,
        spec_pll_output(c) == spec_vco(c) / spec_pll_p_scale(c.pll_p) as int,
{
}

/// A configuration whose PLL input frequency misses the required target is
/// always rejected; when the VCO is otherwise in range, the violation
/// reported is precisely the PLL-input one.
pub proof fn lemma_pll_input_mismatch_rejected(c: ClockInit)
    requires
        spec_pll_input(c) != PLL_INPUT_TARGET,
    ensures
        config_violation(c) is Some,
        !valid_config(c),
        VCO_MIN <= spec_vco(c) <= VCO_MAX ==> config_violation(c)
            == Some(ClockError::InvalidPllInput),
{
}

/// The timer-clock doubling rule, spelled out: with the plain rule a factor
/// of one leaves the timer at the peripheral clock and any other factor
/// doubles it; with the alternate rule a factor of at most four pins the
/// timer to the high-speed bus clock and a larger factor quadruples the
/// peripheral clock.
pub proof fn lemma_timer_doubling(c: ClockInit)
    ensures
        !c.timpre && spec_apbx_scale(c.apb2_pre) == 1 ==> spec_tim2clk(c) == spec_pclk2(c),
        !c.timpre && spec_apbx_scale(c.apb2_pre) != 1 ==> spec_tim2clk(c) == spec_pclk2(c) * 2,
        c.timpre && spec_apbx_scale(c.apb2_pre) <= 4 ==> spec_tim2clk(c) == spec_hclk(c),
        c.timpre && spec_apbx_scale(c.apb2_pre) > 4 ==> spec_tim2clk(c) == spec_pclk2(c) * 4,
        !c.timpre && spec_apbx_scale(c.apb1_pre) == 1 ==> spec_tim1clk(c) == spec_pclk1(c),
        !c.timpre && spec_apbx_scale(c.apb1_pre) != 1 ==> spec_tim1clk(c) == spec_pclk1(c) * 2,
        c.timpre && spec_apbx_scale(c.apb1_pre) <= 4 ==> spec_tim1clk(c) == spec_hclk(c),
        c.timpre && spec_apbx_scale(c.apb1_pre) > 4 ==> spec_tim1clk(c) == spec_pclk1(c) * 4,
{
}

} // verus!


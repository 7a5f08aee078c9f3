//! Hardware sequencer: plans the strict, hazard-free order in which the
//! clock, power and flash registers are programmed.
//!
//! The sequencer is split from the register I/O. [`build_sequence`] runs the
//! full pre-check (frequency model plus validator plus the sequencer's own
//! no-overdrive and flash-latency checks) and, only when every check passes,
//! emits a fixed-order plan of [`HwAction`] values. A hardware shim executes
//! each action against the real register block, busy-polling the ready flag
//! an action calls for. [`HwState`] models the register fields an action can
//! touch, and [`apply_action`] gives each action its meaning on that model,
//! so the ordering hazards (bus overspeed and flash underlatency around the
//! clock switch) are stated and proved over the model.

use vstd::prelude::*;

use crate::constants::{
    pllp_bits, spec_pllp_bits, FLASH_WAIT_MAX, FLASH_WAIT_STEP, HCLK_NO_OVERDRIVE_MAX,
};
use crate::settings::{AHBFactor, APBxFactor, ClockSource, SysTickSource};
use crate::{
    checked_clockspeeds, config_violation, lemma_valid_iff_no_violation, spec_flash_latency,
    spec_hclk, ClockError, ClockInit, PeripheralEnables,
};

verus! {

/// The PLL configuration register fields written in one go while the PLL
/// is off.
#[derive(Copy, Clone, Debug, PartialEq, Eq, Structural)]
pub struct PllSettings {
    /// Feed the PLL from the external oscillator rather than the internal one.
    pub src_hse: bool,
    /// Secondary output divider.
    pub q: u8,
    /// Primary output divider, as the register bit pattern.
    pub p_bits: u8,
    /// VCO multiplier.
    pub n: u16,
    /// Input divider.
    pub m: u8,
}

/// One step of the hardware programming sequence. The shim that executes a
/// plan performs each action's register access and, where noted, blocks
/// until the hardware's ready flag reports the requested state.
#[derive(Copy, Clone, Debug, PartialEq, Eq, Structural)]
pub enum HwAction {
    /// Enable the power-control peripheral clock, a prerequisite for the
    /// voltage-scaling register.
    EnablePowerInterface,
    /// Select the voltage-scaling level for the target bus frequency band.
    SetVoltageScale(u8),
    /// `true`: enable the external oscillator in bypass mode and wait until
    /// it reports ready. `false`: disable it and wait until it reports off.
    ConfigureHse(bool),
    /// `true`: enable the internal oscillator and wait until it reports
    /// ready. `false`: leave it in its prior state; the sequence never
    /// turns it off.
    ConfigureHsi(bool),
    /// Turn the PLL off and wait until it reports not ready; its
    /// configuration register may only be written while it is off.
    DisablePll,
    /// Write the PLL source and divider fields together, turn the PLL on,
    /// and wait until it reports ready.
    ConfigurePll(PllSettings),
    /// The configuration uses no PLL: leave it off.
    LeavePllOff,
    /// Write the flash wait-state field if the currently programmed count
    /// is lower than this target; never lowers it.
    RaiseFlashLatency(u8),
    /// Set both peripheral-bus prescalers to their maximum division factor
    /// so no bus can overshoot its ceiling while the system clock changes.
    SetApbPrescalersToMax,
    /// Program the target high-speed-bus prescaler.
    SetAhbPrescaler(AHBFactor),
    /// Write the system clock source selector and wait until the status
    /// field reports the selected source active.
    SwitchSystemClock(ClockSource),
    /// Program both peripheral-bus prescalers to their final targets.
    SetApbPrescalers(APBxFactor, APBxFactor),
    /// Write the flash wait-state field if the currently programmed count
    /// is higher than this target; never raises it.
    LowerFlashLatency(u8),
    /// Write the timer-clock doubling flag.
    SetTimerDoubling(bool),
    /// Select the system tick counter's input tap.
    SetSystickSource(SysTickSource),
    /// Write the five caller-supplied peripheral clock-enable bitmasks
    /// verbatim.
    WriteEnableMasks(PeripheralEnables),
}

/// Model of the register fields the sequence can touch. Ready flags are not
/// modeled separately: an action that waits on one leaves the model in the
/// state the poll loop establishes.
#[derive(Copy, Clone, Debug, PartialEq, Eq, Structural)]
pub struct HwState {
    pub pwr_enabled: bool,
    pub voltage_scale: u8,
    pub hse_on: bool,
    pub hse_bypass: bool,
    pub hsi_on: bool,
    pub pll_on: bool,
    pub pll_src_hse: bool,
    pub pll_q: u8,
    pub pll_p_bits: u8,
    pub pll_n: u16,
    pub pll_m: u8,
    pub flash_latency: u8,
    pub ahb_pre: AHBFactor,
    pub apb2_pre: APBxFactor,
    pub apb1_pre: APBxFactor,
    pub sys_source: ClockSource,
    pub timpre: bool,
    pub systick_source: SysTickSource,
    pub ahb1_enable: u32,
    pub ahb2_enable: u32,
    pub ahb3_enable: u32,
    pub apb1_enable: u32,
    pub apb2_enable: u32,
}

/// Position of the clock-source switch within every plan.
pub const SWITCH_STEP: usize = 9;

/// Number of actions in every plan.
pub const PLAN_LEN: usize = 15;

/// Whether the configuration needs the external oscillator running.
pub open spec fn spec_uses_hse(c: ClockInit) -> bool {
    c.sys_source == ClockSource::Hse || c.pll_source_hse == Some(true)
}

/// Whether the configuration needs the internal oscillator running.
pub open spec fn spec_uses_hsi(c: ClockInit) -> bool {
    c.sys_source == ClockSource::Hsi || c.pll_source_hse == Some(false)
}

/// Voltage-scaling level for a high-speed-bus frequency band.
pub open spec fn spec_voltage_scale(hclk: int) -> u8 {
    if hclk <= 120000000 {
        1
    } else if hclk <= 144000000 {
        2
    } else {
        3
    }
}

/// Flash wait-state count the new high-speed-bus frequency requires.
pub open spec fn spec_target_latency(c: ClockInit) -> u8 {
    (spec_hclk(c) / FLASH_WAIT_STEP as int) as u8
}

/// The PLL register fields a configuration asks for.
pub open spec fn spec_pll_settings(c: ClockInit) -> PllSettings {
    PllSettings {
        src_hse: c.pll_source_hse == Some(true),
        q: c.pll_q,
        p_bits: spec_pllp_bits(c.pll_p),
        n: c.pll_n,
        m: c.pll_m,
    }
}

/// The sequencer's own pre-check on top of the frequency validator: the
/// high-speed bus must stay under the no-overdrive ceiling, and the flash
/// wait-state count it requires must be one the hardware supports. The
/// first violation in checking order, or `None`.
pub open spec fn sequence_violation(c: ClockInit) -> Option<ClockError> {
    if config_violation(c) is Some {
        config_violation(c)
    } else if spec_hclk(c) > HCLK_NO_OVERDRIVE_MAX {
        Some(ClockError::OverdriveRequired)
    } else if spec_flash_latency(c) > FLASH_WAIT_MAX {
        Some(ClockError::InvalidFlashLatency)
    } else {
        None
    }
}

/// The action at each position of the fixed-order plan: power interface,
/// voltage scaling, oscillators, PLL off then reconfigured, flash latency
/// raised, peripheral buses slowed, high-speed prescaler, clock switch,
/// peripheral buses to target, flash latency lowered, then the
/// handshake-free configuration bits and the enable masks.
pub open spec fn spec_plan_at(c: ClockInit, i: int) -> HwAction {
    if i == 0 {
        HwAction::EnablePowerInterface
    } else if i == 1 {
        HwAction::SetVoltageScale(spec_voltage_scale(spec_hclk(c)))
    } else if i == 2 {
        HwAction::ConfigureHse(spec_uses_hse(c))
    } else if i == 3 {
        HwAction::ConfigureHsi(spec_uses_hsi(c))
    } else if i == 4 {
        HwAction::DisablePll
    } else if i == 5 {
        if c.pll_source_hse is Some {
            HwAction::ConfigurePll(spec_pll_settings(c))
        } else {
            HwAction::LeavePllOff
        }
    } else if i == 6 {
        HwAction::RaiseFlashLatency(spec_target_latency(c))
    } else if i == 7 {
        HwAction::SetApbPrescalersToMax
    } else if i == 8 {
        HwAction::SetAhbPrescaler(c.ahb_pre)
    } else if i == 9 {
        HwAction::SwitchSystemClock(c.sys_source)
    } else if i == 10 {
        HwAction::SetApbPrescalers(c.apb2_pre, c.apb1_pre)
    } else if i == 11 {
        HwAction::LowerFlashLatency(spec_target_latency(c))
    } else if i == 12 {
        HwAction::SetTimerDoubling(c.timpre)
    } else if i == 13 {
        HwAction::SetSystickSource(c.systick_source)
    } else {
        HwAction::WriteEnableMasks(c.periph_enable)
    }
}

/// The whole fixed-order plan for a configuration.
pub open spec fn spec_plan(c: ClockInit) -> Seq<HwAction> {
    Seq::new(PLAN_LEN as nat, |i: int| spec_plan_at(c, i))
}

/// What one action does to the modeled register state.
pub open spec fn spec_apply(s: HwState, a: HwAction) -> HwState {
    match a {
        HwAction::EnablePowerInterface => HwState { pwr_enabled: true, ..s },
        HwAction::SetVoltageScale(v) => HwState { voltage_scale: v, ..s },
        HwAction::ConfigureHse(enable) => if enable {
            HwState { hse_on: true, hse_bypass: true, ..s }
        } else {
            HwState { hse_on: false, ..s }
        },
        HwAction::ConfigureHsi(enable) => if enable {
            HwState { hsi_on: true, ..s }
        } else {
            s
        },
        HwAction::DisablePll => HwState { pll_on: false, ..s },
        HwAction::ConfigurePll(p) => HwState {
            pll_on: true,
            pll_src_hse: p.src_hse,
            pll_q: p.q,
            pll_p_bits: p.p_bits,
            pll_n: p.n,
            pll_m: p.m,
            ..s
        },
        HwAction::LeavePllOff => s,
        HwAction::RaiseFlashLatency(l) => if s.flash_latency < l {
            HwState { flash_latency: l, ..s }
        } else {
            s
        },
        HwAction::SetApbPrescalersToMax => HwState {
            apb2_pre: APBxFactor::Sixteen,
            apb1_pre: APBxFactor::Sixteen,
            ..s
        },
        HwAction::SetAhbPrescaler(f) => HwState { ahb_pre: f, ..s },
        HwAction::SwitchSystemClock(src) => HwState { sys_source: src, ..s },
        HwAction::SetApbPrescalers(a2, a1) => HwState { apb2_pre: a2, apb1_pre: a1, ..s },
        HwAction::LowerFlashLatency(l) => if s.flash_latency > l {
            HwState { flash_latency: l, ..s }
        } else {
            s
        },
        HwAction::SetTimerDoubling(b) => HwState { timpre: b, ..s },
        HwAction::SetSystickSource(x) => HwState { systick_source: x, ..s },
        HwAction::WriteEnableMasks(m) => HwState {
            ahb1_enable: m.ahb1,
            ahb2_enable: m.ahb2,
            ahb3_enable: m.ahb3,
            apb1_enable: m.apb1,
            apb2_enable: m.apb2,
            ..s
        },
    }
}

/// The state after the first `n` actions of a plan.
pub open spec fn spec_run_upto(s: HwState, p: Seq<HwAction>, n: int) -> HwState
    decreases n,
{
    if n <= 0 {
        s
    } else {
        spec_apply(spec_run_upto(s, p, n - 1), p[n - 1])
    }
}

/// The state after a whole plan.
pub open spec fn spec_run(s: HwState, p: Seq<HwAction>) -> HwState {
    spec_run_upto(s, p, p.len() as int)
}

/// Voltage-scaling level from the three-way frequency band table.
pub fn voltage_scale(hclk: u32) -> (v: u8)
    requires
        hclk <= HCLK_NO_OVERDRIVE_MAX,
    ensures
        v == spec_voltage_scale(hclk as int),
{
    if hclk <= 120000000 {
        1
    } else if hclk <= 144000000 {
        2
    } else {
        3
    }
}

/// Executes one action on the register-state model.
pub fn apply_action(s: HwState, a: HwAction) -> (t: HwState)
    ensures
        t == spec_apply(s, a),
{
    match a {
        HwAction::EnablePowerInterface => HwState { pwr_enabled: true, ..s },
        HwAction::SetVoltageScale(v) => HwState { voltage_scale: v, ..s },
        HwAction::ConfigureHse(enable) => if enable {
            HwState { hse_on: true, hse_bypass: true, ..s }
        } else {
            HwState { hse_on: false, ..s }
        },
        HwAction::ConfigureHsi(enable) => if enable {
            HwState { hsi_on: true, ..s }
        } else {
            s
        },
        HwAction::DisablePll => HwState { pll_on: false, ..s },
        HwAction::ConfigurePll(p) => HwState {
            pll_on: true,
            pll_src_hse: p.src_hse,
            pll_q: p.q,
            pll_p_bits: p.p_bits,
            pll_n: p.n,
            pll_m: p.m,
            ..s
        },
        HwAction::LeavePllOff => s,
        HwAction::RaiseFlashLatency(l) => if s.flash_latency < l {
            HwState { flash_latency: l, ..s }
        } else {
            s
        },
        HwAction::SetApbPrescalersToMax => HwState {
            apb2_pre: APBxFactor::Sixteen,
            apb1_pre: APBxFactor::Sixteen,
            ..s
        },
        HwAction::SetAhbPrescaler(f) => HwState { ahb_pre: f, ..s },
        HwAction::SwitchSystemClock(src) => HwState { sys_source: src, ..s },
        HwAction::SetApbPrescalers(a2, a1) => HwState { apb2_pre: a2, apb1_pre: a1, ..s },
        HwAction::LowerFlashLatency(l) => if s.flash_latency > l {
            HwState { flash_latency: l, ..s }
        } else {
            s
        },
        HwAction::SetTimerDoubling(b) => HwState { timpre: b, ..s },
        HwAction::SetSystickSource(x) => HwState { systick_source: x, ..s },
        HwAction::WriteEnableMasks(m) => HwState {
            ahb1_enable: m.ahb1,
            ahb2_enable: m.ahb2,
            ahb3_enable: m.ahb3,
            apb1_enable: m.apb1,
            apb2_enable: m.apb2,
            ..s
        },
    }
}

/// Full pre-check followed by plan construction. Returns the exact
/// fixed-order plan for every configuration that passes all checks, and the
/// first violated constraint, in checking order, for every other
/// configuration — before any register would be touched.
pub fn build_sequence(init: &ClockInit) -> (r: Result<Vec<HwAction>, ClockError>)
    ensures
        r is Ok <==> sequence_violation(*init) is None,
        r matches Ok(p) ==> p@ == spec_plan(*init),
        r matches Err(e) ==> sequence_violation(*init) == Some(e),
{
    proof {
        lemma_valid_iff_no_violation(*init);
    }
    let speeds = match checked_clockspeeds(init) {
        Ok(s) => s,
        Err(e) => {
            return Err(e);
        },
    };
    if speeds.hclk > HCLK_NO_OVERDRIVE_MAX {
        return Err(ClockError::OverdriveRequired);
    }
    let latency_wide: u32 = speeds.hclk / FLASH_WAIT_STEP;
    if latency_wide > FLASH_WAIT_MAX {
        return Err(ClockError::InvalidFlashLatency);
    }
    let latency: u8 = latency_wide as u8;
    let vos: u8 = voltage_scale(speeds.hclk);
    let pll_hse: bool = match init.pll_source_hse {
        Some(true) => true,
        _ => false,
    };
    let pll_hsi: bool = match init.pll_source_hse {
        Some(false) => true,
        _ => false,
    };
    let pll_used: bool = match init.pll_source_hse {
        Some(_) => true,
        None => false,
    };
    let uses_hse: bool = init.sys_source == ClockSource::Hse || pll_hse;
    let uses_hsi: bool = init.sys_source == ClockSource::Hsi || pll_hsi;
    let mut plan: Vec<HwAction> = Vec::new();
    plan.push(HwAction::EnablePowerInterface);
    plan.push(HwAction::SetVoltageScale(vos));
    plan.push(HwAction::ConfigureHse(uses_hse));
    plan.push(HwAction::ConfigureHsi(uses_hsi));
    plan.push(HwAction::DisablePll);
    if pll_used {
        plan.push(HwAction::ConfigurePll(PllSettings {
            src_hse: pll_hse,
            q: init.pll_q,
            p_bits: pllp_bits(init.pll_p),
            n: init.pll_n,
            m: init.pll_m,
        }));
    } else {
        plan.push(HwAction::LeavePllOff);
    }
    plan.push(HwAction::RaiseFlashLatency(latency));
    plan.push(HwAction::SetApbPrescalersToMax);
    plan.push(HwAction::SetAhbPrescaler(init.ahb_pre));
    plan.push(HwAction::SwitchSystemClock(init.sys_source));
    plan.push(HwAction::SetApbPrescalers(init.apb2_pre, init.apb1_pre));
    plan.push(HwAction::LowerFlashLatency(latency));
    plan.push(HwAction::SetTimerDoubling(init.timpre));
    plan.push(HwAction::SetSystickSource(init.systick_source));
    plan.push(HwAction::WriteEnableMasks(init.periph_enable));
    assert(plan@ =~= spec_plan(*init));
    Ok(plan)
}

/// Executes a whole plan on the register-state model, in order.
pub fn apply_sequence(s0: HwState, plan: &Vec<HwAction>) -> (t: HwState)
    ensures
        t == spec_run(s0, plan@),
{
    let mut s: HwState = s0;
    let mut i: usize = 0;
    while i < plan.len()
        invariant
            i <= plan.len(),
            s == spec_run_upto(s0, plan@, i as int),
        decreases plan.len() - i,
    {
        s = apply_action(s, plan[i]);
        i = i + 1;
    }
    s
}

/// The register state the sequence establishes just before the
/// clock-source switch: oscillators and PLL already settled for the new
/// configuration, the flash wait-state count raised to at least the target,
/// both peripheral-bus prescalers at their maximum division factor, and the
/// clock source itself still untouched.
pub open spec fn spec_pre_switch_state(c: ClockInit, s0: HwState) -> HwState {
    HwState {
        pwr_enabled: true,
        voltage_scale: spec_voltage_scale(spec_hclk(c)),
        hse_on: spec_uses_hse(c),
        hse_bypass: if spec_uses_hse(c) { true } else { s0.hse_bypass },
        hsi_on: if spec_uses_hsi(c) { true } else { s0.hsi_on },
        pll_on: c.pll_source_hse is Some,
        pll_src_hse: if c.pll_source_hse is Some {
            c.pll_source_hse == Some(true)
        } else {
            s0.pll_src_hse
        },
        pll_q: if c.pll_source_hse is Some { c.pll_q } else { s0.pll_q },
        pll_p_bits: if c.pll_source_hse is Some { spec_pllp_bits(c.pll_p) } else { s0.pll_p_bits },
        pll_n: if c.pll_source_hse is Some { c.pll_n } else { s0.pll_n },
        pll_m: if c.pll_source_hse is Some { c.pll_m } else { s0.pll_m },
        flash_latency: if s0.flash_latency < spec_target_latency(c) {
            spec_target_latency(c)
        } else {
            s0.flash_latency
        },
        ahb_pre: c.ahb_pre,
        apb2_pre: APBxFactor::Sixteen,
        apb1_pre: APBxFactor::Sixteen,
        sys_source: s0.sys_source,
        timpre: s0.timpre,
        systick_source: s0.systick_source,
        ahb1_enable: s0.ahb1_enable,
        ahb2_enable: s0.ahb2_enable,
        ahb3_enable: s0.ahb3_enable,
        apb1_enable: s0.apb1_enable,
        apb2_enable: s0.apb2_enable,
    }
}

/// The first half of the plan, up to but not including the clock-source
/// switch, takes any starting register state to [`spec_pre_switch_state`].
#[verifier::rlimit(100)]
pub proof fn lemma_pre_switch(c: ClockInit, s0: HwState)
    ensures
        spec_run_upto(s0, spec_plan(c), SWITCH_STEP as int) == spec_pre_switch_state(c, s0),
{
    let p = spec_plan(c);
    let s1 = spec_apply(s0, p[0]);
    let s2 = spec_apply(s1, p[1]);
    let s3 = spec_apply(s2, p[2]);
    let s4 = spec_apply(s3, p[3]);
    let s5 = spec_apply(s4, p[4]);
    let s6 = spec_apply(s5, p[5]);
    let s7 = spec_apply(s6, p[6]);
    let s8 = spec_apply(s7, p[7]);
    let s9 = spec_apply(s8, p[8]);
    assert(spec_run_upto(s0, p, 0) == s0);
    assert(spec_run_upto(s0, p, 1) == s1);
    assert(spec_run_upto(s0, p, 2) == s2);
    assert(spec_run_upto(s0, p, 3) == s3);
    assert(spec_run_upto(s0, p, 4) == s4);
    assert(spec_run_upto(s0, p, 5) == s5);
    assert(spec_run_upto(s0, p, 6) == s6);
    assert(spec_run_upto(s0, p, 7) == s7);
    assert(spec_run_upto(s0, p, 8) == s8);
    assert(spec_run_upto(s0, p, 9) == s9);
    assert(s9 == spec_pre_switch_state(c, s0));
}

/// The register state every successful pass leaves behind: each field the
/// sequence programs reaches a value determined by the configuration alone,
/// while the fields the sequence leaves alone (the external-oscillator
/// bypass bit when the oscillator is unused, the internal-oscillator enable
/// when it is unused, and the PLL divider fields when the PLL stays off)
/// keep what the hardware held before.
pub open spec fn spec_final_state(c: ClockInit, s0: HwState) -> HwState {
    HwState {
        pwr_enabled: true,
        voltage_scale: spec_voltage_scale(spec_hclk(c)),
        hse_on: spec_uses_hse(c),
        hse_bypass: if spec_uses_hse(c) { true } else { s0.hse_bypass },
        hsi_on: if spec_uses_hsi(c) { true } else { s0.hsi_on },
        pll_on: c.pll_source_hse is Some,
        pll_src_hse: if c.pll_source_hse is Some {
            c.pll_source_hse == Some(true)
        } else {
            s0.pll_src_hse
        },
        pll_q: if c.pll_source_hse is Some { c.pll_q } else { s0.pll_q },
        pll_p_bits: if c.pll_source_hse is Some { spec_pllp_bits(c.pll_p) } else { s0.pll_p_bits },
        pll_n: if c.pll_source_hse is Some { c.pll_n } else { s0.pll_n },
        pll_m: if c.pll_source_hse is Some { c.pll_m } else { s0.pll_m },
        flash_latency: spec_target_latency(c),
        ahb_pre: c.ahb_pre,
        apb2_pre: c.apb2_pre,
        apb1_pre: c.apb1_pre,
        sys_source: c.sys_source,
        timpre: c.timpre,
        systick_source: c.systick_source,
        ahb1_enable: c.periph_enable.ahb1,
        ahb2_enable: c.periph_enable.ahb2,
        ahb3_enable: c.periph_enable.ahb3,
        apb1_enable: c.periph_enable.apb1,
        apb2_enable: c.periph_enable.apb2,
    }
}

/// Running the whole plan takes any starting register state to
/// [`spec_final_state`], whatever the configuration.
#[verifier::rlimit(100)]
pub proof fn lemma_run_characterized(c: ClockInit, s0: HwState)
    ensures
        spec_run(s0, spec_plan(c)) == spec_final_state(c, s0),
{
    lemma_pre_switch(c, s0);
    let p = spec_plan(c);
    let mid = spec_pre_switch_state(c, s0);
    let s10 = spec_apply(mid, p[9]);
    let s11 = spec_apply(s10, p[10]);
    let s12 = spec_apply(s11, p[11]);
    let s13 = spec_apply(s12, p[12]);
    let s14 = spec_apply(s13, p[13]);
    let s15 = spec_apply(s14, p[14]);
    assert(spec_run_upto(s0, p, 10) == s10);
    assert(spec_run_upto(s0, p, 11) == s11);
    assert(spec_run_upto(s0, p, 12) == s12);
    assert(spec_run_upto(s0, p, 13) == s13);
    assert(spec_run_upto(s0, p, 14) == s14);
    assert(spec_run_upto(s0, p, 15) == s15);
    assert(s15 == spec_final_state(c, s0));
}

/// The two switch-time hazards cannot occur, whatever state the hardware
/// started in: at the moment of the clock-source switch the flash
/// wait-state count is never lower than the final target count (it is only
/// lowered afterwards), and both peripheral-bus prescalers stand at their
/// maximum division factor so neither bus can overshoot its ceiling while
/// the system clock changes. After the whole sequence the wait-state count
/// is exactly the target.
pub proof fn lemma_latency_safe_across_switch(c: ClockInit, s0: HwState)
    requires
        sequence_violation(c) is None,
    ensures
        spec_plan(c)[SWITCH_STEP as int] == HwAction::SwitchSystemClock(c.sys_source),
        spec_run_upto(s0, spec_plan(c), SWITCH_STEP as int).flash_latency
            >= spec_run(s0, spec_plan(c)).flash_latency,
        spec_run(s0, spec_plan(c)).flash_latency == spec_target_latency(c),
        spec_run_upto(s0, spec_plan(c), SWITCH_STEP as int).apb2_pre == APBxFactor::Sixteen,
        spec_run_upto(s0, spec_plan(c), SWITCH_STEP as int).apb1_pre == APBxFactor::Sixteen,
{
    lemma_pre_switch(c, s0);
    lemma_run_characterized(c, s0);
}

/// Re-running the whole sequence with the same configuration leaves the
/// modeled registers exactly where the first run left them: the pass is
/// idempotent, with no drift from repeated application. (The derived
/// speeds snapshot is a pure function of the configuration, so it is the
/// same on both runs by construction.)
pub proof fn lemma_sequence_idempotent(c: ClockInit, s0: HwState)
    requires
        sequence_violation(c) is None,
    ensures
        spec_run(spec_run(s0, spec_plan(c)), spec_plan(c)) == spec_run(s0, spec_plan(c)),
{
    let f1 = spec_run(s0, spec_plan(c));
    lemma_run_characterized(c, s0);
    lemma_run_characterized(c, f1);
    assert(spec_final_state(c, f1) == spec_final_state(c, s0));
}

} // verus!

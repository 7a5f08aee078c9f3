use clocktree::constants::{ahb_scale, apbx_scale, pll_p_scale, pllp_bits};
use clocktree::sequence::{
    apply_action, apply_sequence, build_sequence, voltage_scale, HwAction, HwState, PLAN_LEN,
    SWITCH_STEP,
};
use clocktree::settings::{AHBFactor, APBxFactor, ClockSource, SysTickSource, PLLP};
use clocktree::{
    calculate_clockspeeds, checked_clockspeeds, validate, ClockError, ClockInit,
    PeripheralEnables,
};

fn no_enables() -> PeripheralEnables {
    PeripheralEnables { ahb1: 0, ahb2: 0, ahb3: 0, apb1: 0, apb2: 0 }
}

/// The reference performance point: external 8 MHz through the PLL up to a
/// 168 MHz system clock.
fn reference_config() -> ClockInit {
    ClockInit {
        pll_source_hse: Some(true),
        sys_source: ClockSource::Pll,
        systick_source: SysTickSource::HclkDiv8,
        timpre: false,
        pll_q: 7,
        pll_p: PLLP::Two,
        pll_n: 168,
        pll_m: 4,
        ahb_pre: AHBFactor::One,
        apb2_pre: APBxFactor::Two,
        apb1_pre: APBxFactor::Four,
        periph_enable: no_enables(),
    }
}

/// A quiet performance point that runs the system clock from the internal
/// oscillator while keeping the PLL fields legal.
fn hsi_config() -> ClockInit {
    ClockInit {
        pll_source_hse: None,
        sys_source: ClockSource::Hsi,
        systick_source: SysTickSource::HclkDiv8,
        timpre: false,
        pll_q: 7,
        pll_p: PLLP::Two,
        pll_n: 100,
        pll_m: 8,
        ahb_pre: AHBFactor::One,
        apb2_pre: APBxFactor::One,
        apb1_pre: APBxFactor::One,
        periph_enable: no_enables(),
    }
}

fn blank_state() -> HwState {
    HwState {
        pwr_enabled: false,
        voltage_scale: 0,
        hse_on: false,
        hse_bypass: false,
        hsi_on: true,
        pll_on: false,
        pll_src_hse: false,
        pll_q: 0,
        pll_p_bits: 0,
        pll_n: 0,
        pll_m: 0,
        flash_latency: 0,
        ahb_pre: AHBFactor::One,
        apb2_pre: APBxFactor::One,
        apb1_pre: APBxFactor::One,
        sys_source: ClockSource::Hsi,
        timpre: false,
        systick_source: SysTickSource::HclkDiv8,
        ahb1_enable: 0,
        ahb2_enable: 0,
        ahb3_enable: 0,
        apb1_enable: 0,
        apb2_enable: 0,
    }
}

#[test]
fn scale_tables_are_exact() {
    assert_eq!(apbx_scale(APBxFactor::One), 1);
    assert_eq!(apbx_scale(APBxFactor::Two), 2);
    assert_eq!(apbx_scale(APBxFactor::Four), 4);
    assert_eq!(apbx_scale(APBxFactor::Eight), 8);
    assert_eq!(apbx_scale(APBxFactor::Sixteen), 16);
    assert_eq!(ahb_scale(AHBFactor::One), 1);
    assert_eq!(ahb_scale(AHBFactor::Two), 2);
    assert_eq!(ahb_scale(AHBFactor::Four), 4);
    assert_eq!(ahb_scale(AHBFactor::Eight), 8);
    assert_eq!(ahb_scale(AHBFactor::Sixteen), 16);
    assert_eq!(ahb_scale(AHBFactor::SixtyFour), 64);
    assert_eq!(ahb_scale(AHBFactor::OneHundredTwentyEight), 128);
    assert_eq!(ahb_scale(AHBFactor::TwoHundredFiftySix), 256);
    assert_eq!(ahb_scale(AHBFactor::FiveHundredTwelve), 512);
    assert_eq!(pll_p_scale(PLLP::Two), 2);
    assert_eq!(pll_p_scale(PLLP::Four), 4);
    assert_eq!(pll_p_scale(PLLP::Six), 6);
    assert_eq!(pll_p_scale(PLLP::Eight), 8);
    assert_eq!(pllp_bits(PLLP::Two), 0b00);
    assert_eq!(pllp_bits(PLLP::Four), 0b01);
    assert_eq!(pllp_bits(PLLP::Six), 0b10);
    assert_eq!(pllp_bits(PLLP::Eight), 0b11);
}

#[test]
fn reference_point_derives_168_mhz() {
    let cfg = reference_config();
    let speeds = checked_clockspeeds(&cfg).expect("reference point must validate");
    assert_eq!(speeds.pll_input, 2_000_000);
    assert_eq!(speeds.pll_output, 168_000_000);
    assert_eq!(speeds.sysclk, 168_000_000);
    assert_eq!(speeds.hclk, 168_000_000);
    assert_eq!(speeds.pclk2, 84_000_000);
    assert_eq!(speeds.pclk1, 42_000_000);
    assert_eq!(speeds.tim2clk, 168_000_000);
    assert_eq!(speeds.tim1clk, 84_000_000);
    assert_eq!(speeds.systickclk, 21_000_000);
    let direct = calculate_clockspeeds(&cfg);
    assert_eq!(direct, speeds);
}

#[test]
fn vco_upper_bound_is_inclusive() {
    // One above the bound is rejected, the bound itself is accepted.
    assert_eq!(
        validate(2_000_000, 432_000_001, 108_000_000, 108_000_000, 54_000_000, 27_000_000),
        Err(ClockError::InvalidVcoRange)
    );
    assert_eq!(
        validate(2_000_000, 432_000_000, 108_000_000, 108_000_000, 54_000_000, 27_000_000),
        Ok(())
    );
    // A whole configuration sitting exactly on the bound: 2 MHz x 216.
    let mut cfg = reference_config();
    cfg.pll_n = 216;
    cfg.pll_p = PLLP::Four;
    let speeds = checked_clockspeeds(&cfg).expect("boundary VCO must validate");
    assert_eq!(speeds.pll_output, 108_000_000);
}

#[test]
fn vco_below_range_rejected() {
    let mut cfg = reference_config();
    cfg.pll_n = 49; // 98 MHz, one multiplier step under the lower bound
    assert_eq!(checked_clockspeeds(&cfg), Err(ClockError::InvalidVcoRange));
    cfg.pll_n = 50; // exactly 100 MHz
    cfg.sys_source = ClockSource::Hse;
    let speeds = checked_clockspeeds(&cfg).expect("lower boundary must validate");
    assert_eq!(speeds.pll_output, 50_000_000);
}

#[test]
fn pll_input_off_target_rejected() {
    // 8 MHz / 8 = 1 MHz input; VCO and output are otherwise in range.
    let mut cfg = reference_config();
    cfg.pll_m = 8;
    cfg.pll_n = 200; // VCO 200 MHz, output 100 MHz
    assert_eq!(checked_clockspeeds(&cfg), Err(ClockError::InvalidPllInput));
    // The same straight through the validator.
    assert_eq!(
        validate(1_999_999, 200_000_000, 100_000_000, 100_000_000, 50_000_000, 25_000_000),
        Err(ClockError::InvalidPllInput)
    );
    // A zero input divider can never reach the target input frequency.
    let mut zero = reference_config();
    zero.pll_m = 0;
    assert!(checked_clockspeeds(&zero).is_err());
}

#[test]
fn pll_output_ceiling_enforced() {
    let mut cfg = reference_config();
    cfg.pll_n = 216; // VCO 432 MHz, output 216 MHz with the divide-by-two
    assert_eq!(checked_clockspeeds(&cfg), Err(ClockError::PllOutputTooHigh));
}

#[test]
fn hclk_ceiling_enforced_in_validator() {
    assert_eq!(
        validate(2_000_000, 360_000_000, 180_000_000, 180_000_001, 90_000_000, 45_000_000),
        Err(ClockError::HclkTooHigh)
    );
}

#[test]
fn peripheral_bus_ceilings_enforced() {
    let mut fast = reference_config();
    fast.apb2_pre = APBxFactor::One; // 168 MHz on a 90 MHz bus
    assert_eq!(checked_clockspeeds(&fast), Err(ClockError::Pclk2TooHigh));
    let mut slow = reference_config();
    slow.apb1_pre = APBxFactor::Two; // 84 MHz on a 45 MHz bus
    assert_eq!(checked_clockspeeds(&slow), Err(ClockError::Pclk1TooHigh));
}

#[test]
fn overdrive_band_rejected_by_sequencer() {
    // 180 MHz passes every frequency check but sits above the no-overdrive
    // ceiling, so the hardware pass refuses to start.
    let mut cfg = reference_config();
    cfg.pll_n = 180;
    cfg.apb2_pre = APBxFactor::Four;
    cfg.apb1_pre = APBxFactor::Eight;
    assert!(checked_clockspeeds(&cfg).is_ok());
    assert_eq!(build_sequence(&cfg), Err(ClockError::OverdriveRequired));
}

#[test]
fn timer_doubling_rule() {
    // Prescaler factor 1, plain rule: timer clock equals the bus clock.
    let cfg = hsi_config(); // hclk 16 MHz, both peripheral buses at factor 1
    let speeds = checked_clockspeeds(&cfg).expect("internal-oscillator point must validate");
    assert_eq!(speeds.pclk1, 16_000_000);
    assert_eq!(speeds.tim1clk, 16_000_000);
    assert_eq!(speeds.tim2clk, 16_000_000);
    // Factor 2, plain rule: timer clock is twice the peripheral clock.
    let cfg2 = reference_config(); // apb2 factor 2, no doubling flag
    let speeds2 = checked_clockspeeds(&cfg2).expect("reference point must validate");
    assert_eq!(speeds2.tim2clk, 2 * speeds2.pclk2);
    // Factor 2 with the doubling flag: timer clock is the high-speed bus
    // clock itself, not a multiple of the peripheral clock.
    let mut cfg3 = reference_config();
    cfg3.timpre = true;
    cfg3.apb1_pre = APBxFactor::Eight;
    let speeds3 = checked_clockspeeds(&cfg3).expect("reference point must validate");
    assert_eq!(speeds3.tim2clk, speeds3.hclk);
    assert_eq!(speeds3.tim2clk, 168_000_000);
    // Factor 8 with the doubling flag: four times the peripheral clock.
    assert_eq!(speeds3.pclk1, 21_000_000);
    assert_eq!(speeds3.tim1clk, 84_000_000);
}

#[test]
fn systick_divide_by_eight() {
    let cfg = reference_config(); // hclk 168 MHz, divide-by-8 tap
    let speeds = checked_clockspeeds(&cfg).expect("reference point must validate");
    assert_eq!(speeds.systickclk, 21_000_000);
    let mut direct = reference_config();
    direct.systick_source = SysTickSource::HclkDiv1;
    let speeds2 = checked_clockspeeds(&direct).expect("reference point must validate");
    assert_eq!(speeds2.systickclk, 168_000_000);
}

#[test]
fn voltage_scale_bands() {
    assert_eq!(voltage_scale(16_000_000), 0b01);
    assert_eq!(voltage_scale(120_000_000), 0b01);
    assert_eq!(voltage_scale(120_000_001), 0b10);
    assert_eq!(voltage_scale(144_000_000), 0b10);
    assert_eq!(voltage_scale(144_000_001), 0b11);
    assert_eq!(voltage_scale(168_000_000), 0b11);
}

#[test]
fn plan_has_the_required_order() {
    let cfg = reference_config();
    let plan = build_sequence(&cfg).expect("reference point must validate");
    assert_eq!(plan.len(), PLAN_LEN);
    assert_eq!(plan[0], HwAction::EnablePowerInterface);
    assert_eq!(plan[1], HwAction::SetVoltageScale(0b11));
    assert_eq!(plan[2], HwAction::ConfigureHse(true));
    assert_eq!(plan[3], HwAction::ConfigureHsi(false));
    assert_eq!(plan[4], HwAction::DisablePll);
    match plan[5] {
        HwAction::ConfigurePll(p) => {
            assert!(p.src_hse);
            assert_eq!(p.q, 7);
            assert_eq!(p.p_bits, 0b00);
            assert_eq!(p.n, 168);
            assert_eq!(p.m, 4);
        }
        other => panic!("expected the PLL configuration step, found {:?}", other),
    }
    assert_eq!(plan[6], HwAction::RaiseFlashLatency(5));
    assert_eq!(plan[7], HwAction::SetApbPrescalersToMax);
    assert_eq!(plan[8], HwAction::SetAhbPrescaler(AHBFactor::One));
    assert_eq!(plan[SWITCH_STEP], HwAction::SwitchSystemClock(ClockSource::Pll));
    assert_eq!(plan[10], HwAction::SetApbPrescalers(APBxFactor::Two, APBxFactor::Four));
    assert_eq!(plan[11], HwAction::LowerFlashLatency(5));
    assert_eq!(plan[12], HwAction::SetTimerDoubling(false));
    assert_eq!(plan[13], HwAction::SetSystickSource(SysTickSource::HclkDiv8));
    assert_eq!(plan[14], HwAction::WriteEnableMasks(no_enables()));
}

#[test]
fn plan_without_pll_leaves_it_off() {
    let cfg = hsi_config();
    let plan = build_sequence(&cfg).expect("internal-oscillator point must validate");
    assert_eq!(plan[2], HwAction::ConfigureHse(false));
    assert_eq!(plan[3], HwAction::ConfigureHsi(true));
    assert_eq!(plan[5], HwAction::LeavePllOff);
    let end = apply_sequence(blank_state(), &plan);
    assert!(!end.pll_on);
    assert!(!end.hse_on);
    assert!(end.hsi_on);
}

#[test]
fn flash_latency_never_low_before_switch() {
    let cfg = reference_config();
    let plan = build_sequence(&cfg).expect("reference point must validate");
    // From a cold state: the latency is raised to the target before the
    // switch and still the target afterwards.
    let prefix: Vec<HwAction> = plan[..SWITCH_STEP].to_vec();
    let before = apply_sequence(blank_state(), &prefix);
    let after = apply_sequence(blank_state(), &plan);
    assert_eq!(before.flash_latency, 5);
    assert_eq!(after.flash_latency, 5);
    assert!(before.flash_latency >= after.flash_latency);
    // From a state with more wait states than needed: they are kept through
    // the switch and only lowered afterwards.
    let mut warm = blank_state();
    warm.flash_latency = 7;
    let before2 = apply_sequence(warm, &prefix);
    let after2 = apply_sequence(warm, &plan);
    assert_eq!(before2.flash_latency, 7);
    assert_eq!(after2.flash_latency, 5);
    assert!(before2.flash_latency >= after2.flash_latency);
}

#[test]
fn repeated_pass_is_idempotent() {
    let cfg = reference_config();
    let first = checked_clockspeeds(&cfg).expect("reference point must validate");
    let second = checked_clockspeeds(&cfg).expect("reference point must validate");
    assert_eq!(first, second);
    let plan = build_sequence(&cfg).expect("reference point must validate");
    let once = apply_sequence(blank_state(), &plan);
    let twice = apply_sequence(once, &plan);
    assert_eq!(once, twice);
}

#[test]
fn actions_respect_their_register_semantics() {
    let mut s = blank_state();
    s.flash_latency = 7;
    // Raising to a lower target changes nothing; lowering applies it.
    let raised = apply_action(s, HwAction::RaiseFlashLatency(5));
    assert_eq!(raised.flash_latency, 7);
    let lowered = apply_action(s, HwAction::LowerFlashLatency(5));
    assert_eq!(lowered.flash_latency, 5);
    // Leaving the internal oscillator alone keeps its prior state.
    let untouched = apply_action(s, HwAction::ConfigureHsi(false));
    assert_eq!(untouched.hsi_on, s.hsi_on);
    // Disabling the external oscillator does not clear its bypass bit.
    let mut bypassed = blank_state();
    bypassed.hse_on = true;
    bypassed.hse_bypass = true;
    let disabled = apply_action(bypassed, HwAction::ConfigureHse(false));
    assert!(!disabled.hse_on);
    assert!(disabled.hse_bypass);
    // Enable masks are written verbatim.
    let masks = PeripheralEnables { ahb1: 0x11, ahb2: 0x22, ahb3: 0x33, apb1: 0x44, apb2: 0x55 };
    let enabled = apply_action(blank_state(), HwAction::WriteEnableMasks(masks));
    assert_eq!(enabled.ahb1_enable, 0x11);
    assert_eq!(enabled.ahb2_enable, 0x22);
    assert_eq!(enabled.ahb3_enable, 0x33);
    assert_eq!(enabled.apb1_enable, 0x44);
    assert_eq!(enabled.apb2_enable, 0x55);
}

#[test]
fn rejected_configuration_builds_no_plan() {
    let mut cfg = reference_config();
    cfg.pll_n = 49;
    assert_eq!(build_sequence(&cfg), Err(ClockError::InvalidVcoRange));
}

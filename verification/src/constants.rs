//! Scale tables: total, pure maps from each divider enumeration to its
//! numeric division factor, plus the nominal oscillator frequencies and the
//! hardware limits the validator enforces.

use vstd::prelude::*;
use crate::settings::{AHBFactor, APBxFactor, PLLP};

verus! {

/// Nominal frequency of the internal oscillator, in Hz.
pub const HSI_FREQ: u32 = 16000000;

/// Nominal frequency of the externally buffered oscillator, in Hz.
pub const HSE_FREQ: u32 = 8000000;

/// Lower bound of the legal VCO frequency range, inclusive.
pub const VCO_MIN: u32 = 100000000;

/// Upper bound of the legal VCO frequency range, inclusive.
pub const VCO_MAX: u32 = 432000000;

/// The only PLL input frequency at which phase locking is characterized.
pub const PLL_INPUT_TARGET: u32 = 2000000;

/// Ceiling on the PLL output frequency.
pub const PLL_OUTPUT_MAX: u32 = 180000000;

/// Absolute ceiling on the high-speed bus frequency.
pub const HCLK_MAX: u32 = 180000000;

/// Ceiling on the high-speed bus frequency while overdrive is not enabled.
pub const HCLK_NO_OVERDRIVE_MAX: u32 = 168000000;

/// Ceiling on the fast peripheral bus frequency.
pub const PCLK2_MAX: u32 = 90000000;

/// Ceiling on the slow peripheral bus frequency.
pub const PCLK1_MAX: u32 = 45000000;

/// One flash wait state is needed per this many Hz of bus clock.
pub const FLASH_WAIT_STEP: u32 = 30000000;

/// Largest flash wait-state count the hardware supports.
pub const FLASH_WAIT_MAX: u32 = 5;

/// Division factor of a peripheral-bus prescaler choice.
pub open spec fn spec_apbx_scale(x: APBxFactor) -> u32 {
    match x {
        APBxFactor::One => 1,
        APBxFactor::Two => 2,
        APBxFactor::Four => 4,
        APBxFactor::Eight => 8,
        APBxFactor::Sixteen => 16,
    }
}

/// Division factor of a high-speed-bus prescaler choice.
pub open spec fn spec_ahb_scale(x: AHBFactor) -> u32 {
    match x {
        AHBFactor::One => 1,
        AHBFactor::Two => 2,
        AHBFactor::Four => 4,
        AHBFactor::Eight => 8,
        AHBFactor::Sixteen => 16,
        AHBFactor::SixtyFour => 64,
        AHBFactor::OneHundredTwentyEight => 128,
        AHBFactor::TwoHundredFiftySix => 256,
        AHBFactor::FiveHundredTwelve => 512,
    }
}

/// Division factor of a primary PLL output divider choice.
pub open spec fn spec_pll_p_scale(x: PLLP) -> u32 {
    match x {
        PLLP::Two => 2,
        PLLP::Four => 4,
        PLLP::Six => 6,
        PLLP::Eight => 8,
    }
}

/// Bit pattern the PLL configuration register expects for a primary output
/// divider choice.
pub open spec fn spec_pllp_bits(x: PLLP) -> u8 {
    match x {
        PLLP::Two => 0,
        PLLP::Four => 1,
        PLLP::Six => 2,
        PLLP::Eight => 3,
    }
}

#[inline(always)]
pub fn apbx_scale(x: APBxFactor) -> (r: u32)
    ensures
        r == spec_apbx_scale(x),
        1 <= r <= 16,
{
    match x {
        APBxFactor::One => 1,
        APBxFactor::Two => 2,
        APBxFactor::Four => 4,
        APBxFactor::Eight => 8,
        APBxFactor::Sixteen => 16,
    }
}

#[inline(always)]
pub fn ahb_scale(x: AHBFactor) -> (r: u32)
    ensures
        r == spec_ahb_scale(x),
        1 <= r <= 512,
{
    match x {
        AHBFactor::One => 1,
        AHBFactor::Two => 2,
        AHBFactor::Four => 4,
        AHBFactor::Eight => 8,
        AHBFactor::Sixteen => 16,
        AHBFactor::SixtyFour => 64,
        AHBFactor::OneHundredTwentyEight => 128,
        AHBFactor::TwoHundredFiftySix => 256,
        AHBFactor::FiveHundredTwelve => 512,
    }
}

#[inline(always)]
pub fn pll_p_scale(x: PLLP) -> (r: u32)
    ensures
        r == spec_pll_p_scale(x),
        2 <= r <= 8,
{
    match x {
        PLLP::Two => 2,
        PLLP::Four => 4,
        PLLP::Six => 6,
        PLLP::Eight => 8,
    }
}

/// Register bit pattern for a primary PLL output divider choice.
#[inline(always)]
pub fn pllp_bits(x: PLLP) -> (r: u8)
    ensures
        r == spec_pllp_bits(x),
{
    match x {
        PLLP::Two => 0,
        PLLP::Four => 1,
        PLLP::Six => 2,
        PLLP::Eight => 3,
    }
}

} // verus!

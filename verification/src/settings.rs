//! Closed enumerations for every selectable field of the clock tree.
//!
//! Each divider or source choice is a named variant of a closed set, so a
//! configuration can never carry an illegal prescaler value; the only raw
//! numeric fields are the PLL's input divider and multiplier, whose legality
//! is range-checked by the validator instead.

use vstd::prelude::*;

verus! {

/// Input tap for the system tick counter: the high-speed bus clock either
/// directly or divided by eight.
#[derive(Copy, Clone, Debug, PartialEq, Eq, Structural)]
pub enum SysTickSource {
    HclkDiv8,
    HclkDiv1,
}

/// The source feeding the system clock: internal oscillator, external
/// oscillator, or the PLL output.
#[derive(Copy, Clone, Debug, PartialEq, Eq, Structural)]
pub enum ClockSource {
    Hsi,
    Hse,
    Pll,
}

/// Primary PLL output divider; only these four even factors exist in hardware.
#[derive(Copy, Clone, Debug, PartialEq, Eq, Structural)]
pub enum PLLP {
    Two,
    Four,
    Six,
    Eight,
}

/// High-speed bus prescaler: a sparse set of power-of-two division factors.
#[derive(Copy, Clone, Debug, PartialEq, Eq, Structural)]
pub enum AHBFactor {
    One,
    Two,
    Four,
    Eight,
    Sixteen,
    SixtyFour,
    OneHundredTwentyEight,
    TwoHundredFiftySix,
    FiveHundredTwelve,
}

/// Peripheral-bus prescaler: power-of-two division factors up to sixteen.
#[derive(Copy, Clone, Debug, PartialEq, Eq, Structural)]
pub enum APBxFactor {
    One,
    Two,
    Four,
    Eight,
    Sixteen,
}

} // verus!

//! Clock tree state as seen by the peripheral clock helpers.
//!
//! A snapshot of the upstream clocks: for each optional source, whether it
//! is running, at which frequency, and down to which power state it stays on.
//! A peripheral asks for a source "at a level"; the request succeeds only if
//! the source runs and stays powered in every state the peripheral needs.

use vstd::prelude::*;

pub mod periph_helpers;

verus! {

/// Power states in which a clock keeps running.
#[derive(Debug, Clone, Copy, PartialEq, Eq, Structural)]
pub enum PoweredClock {
    /// Runs in normal mode, stops in deep sleep.
    NormalEnabledDeepSleepDisabled,
    /// Runs in normal mode and in deep sleep.
    AlwaysEnabled,
}

impl PoweredClock {
    /// A clock powered at level `self` serves a consumer that needs `other`.
    pub open spec fn meets(self, other: PoweredClock) -> bool {
        match (self, other) {
            (PoweredClock::NormalEnabledDeepSleepDisabled, PoweredClock::AlwaysEnabled) => false,
            _ => true,
        }
    }

    /// Whether a clock powered at level `self` serves a consumer that needs `other`.
    pub fn meets_requirement_of(&self, other: &PoweredClock) -> (r: bool)
        ensures
            r == self.meets(*other),
    {
        match (self, other) {
            (PoweredClock::NormalEnabledDeepSleepDisabled, PoweredClock::AlwaysEnabled) => false,
            _ => true,
        }
    }
}

/// A running clock.
#[derive(Debug, Clone, Copy, PartialEq, Eq, Structural)]
pub struct Clock {
    /// Frequency in Hz.
    pub frequency: u32,
    /// Power states in which it keeps running.
    pub power: PoweredClock,
}

/// The optional upstream clock sources.
#[derive(Debug, Clone, Copy, PartialEq, Eq, Structural)]
pub enum ClockId {
    FrgPll,
    Sfro16Mhz,
    Ffro48_60Mhz,
    ClkIn,
    Lposc1Mhz,
    MainPll,
    Aux0Pll,
    Aux1Pll,
    Clk32Khz,
}

/// Why a configuration cannot be applied although it is well formed.
#[derive(Debug, Clone, Copy, PartialEq, Eq, Structural)]
pub enum ProgErrorKind {
    /// The selected source is not implemented for this peripheral.
    NotImplemented,
    /// The audio PLL is not supported yet.
    AudioPllNotSupported,
    /// The peripheral's clock configuration is not implemented.
    PeripheralNotImplemented,
}

/// Clock configuration error.
#[derive(Debug, Clone, Copy, PartialEq, Eq, Structural)]
pub enum ClockError {
    /// The required source clock is not running.
    NotActive(ClockId),
    /// The required source clock runs, but not in every power state needed.
    NotPowered(ClockId),
    /// Programming error: the request is not supported.
    ProgError(ProgErrorKind),
}

/// Snapshot of the clock tree.
#[derive(Debug, Clone, Copy, PartialEq, Eq, Structural)]
pub struct Clocks {
    /// Main clock frequency in Hz; the main clock always runs.
    pub main_clk: u32,
    /// System CPU / AHB clock frequency in Hz.
    pub sys_cpu_ahb_clk: u32,
    pub frg_pll: Option<Clock>,
    pub sfro_16mhz: Option<Clock>,
    pub ffro_48_60mhz: Option<Clock>,
    pub clk_in: Option<Clock>,
    pub lposc_1mhz: Option<Clock>,
    pub main_pll: Option<Clock>,
    pub aux0_pll: Option<Clock>,
    pub aux1_pll: Option<Clock>,
    pub clk_32khz: Option<Clock>,
}

/// Frequency of an optional source when it runs at least at `at_level`.
pub open spec fn ensure_active(clk: Option<Clock>, id: ClockId, at_level: PoweredClock) -> Result<
    u32,
    ClockError,
> {
    match clk {
        None => Err(ClockError::NotActive(id)),
        Some(c) => if c.power.meets(at_level) {
            Ok(c.frequency)
        } else {
            Err(ClockError::NotPowered(id))
        },
    }
}

fn ensure_clock_active(clk: &Option<Clock>, id: ClockId, at_level: &PoweredClock) -> (r: Result<
    u32,
    ClockError,
>)
    ensures
        r == ensure_active(*clk, id, *at_level),
{
    match clk {
        None => Err(ClockError::NotActive(id)),
        Some(c) => if c.power.meets_requirement_of(at_level) {
            Ok(c.frequency)
        } else {
            Err(ClockError::NotPowered(id))
        },
    }
}

/// A source that serves a consumer needing it in every power state also
/// serves one needing it only in normal mode, at the same frequency.
pub proof fn lemma_weaker_power_requirement(clk: Option<Clock>, id: ClockId)
    ensures
        ensure_active(clk, id, PoweredClock::AlwaysEnabled) is Ok ==> ensure_active(
            clk,
            id,
            PoweredClock::NormalEnabledDeepSleepDisabled,
        ) == ensure_active(clk, id, PoweredClock::AlwaysEnabled),
{
}

impl Clocks {
    /// Frequency of the FRG PLL, if it runs at `at_level`.
    pub fn ensure_frg_pll_active(&self, at_level: &PoweredClock) -> (r: Result<u32, ClockError>)
        ensures
            r == ensure_active(self.frg_pll, ClockId::FrgPll, *at_level),
    {
        ensure_clock_active(&self.frg_pll, ClockId::FrgPll, at_level)
    }

    /// Frequency of the 16 MHz SFRO, if it runs at `at_level`.
    pub fn ensure_16mhz_sfro_active(&self, at_level: &PoweredClock) -> (r: Result<u32, ClockError>)
        ensures
            r == ensure_active(self.sfro_16mhz, ClockId::Sfro16Mhz, *at_level),
    {
        ensure_clock_active(&self.sfro_16mhz, ClockId::Sfro16Mhz, at_level)
    }

    /// Frequency of the 48/60 MHz FFRO, if it runs at `at_level`.
    pub fn ensure_48_60mhz_ffro_active(&self, at_level: &PoweredClock) -> (r: Result<
        u32,
        ClockError,
    >)
        ensures
            r == ensure_active(self.ffro_48_60mhz, ClockId::Ffro48_60Mhz, *at_level),
    {
        ensure_clock_active(&self.ffro_48_60mhz, ClockId::Ffro48_60Mhz, at_level)
    }

    /// Frequency of the external clock input, if it runs at `at_level`.
    pub fn ensure_clk_in_active(&self, at_level: &PoweredClock) -> (r: Result<u32, ClockError>)
        ensures
            r == ensure_active(self.clk_in, ClockId::ClkIn, *at_level),
    {
        ensure_clock_active(&self.clk_in, ClockId::ClkIn, at_level)
    }

    /// Frequency of the 1 MHz low power oscillator, if it runs at `at_level`.
    pub fn ensure_1mhz_lposc_active(&self, at_level: &PoweredClock) -> (r: Result<u32, ClockError>)
        ensures
            r == ensure_active(self.lposc_1mhz, ClockId::Lposc1Mhz, *at_level),
    {
        ensure_clock_active(&self.lposc_1mhz, ClockId::Lposc1Mhz, at_level)
    }

    /// Frequency of the main PLL clock, if it runs at `at_level`.
    pub fn ensure_main_pll_clk_active(&self, at_level: &PoweredClock) -> (r: Result<
        u32,
        ClockError,
    >)
        ensures
            r == ensure_active(self.main_pll, ClockId::MainPll, *at_level),
    {
        ensure_clock_active(&self.main_pll, ClockId::MainPll, at_level)
    }

    /// Frequency of the AUX0 PLL clock, if it runs at `at_level`.
    pub fn ensure_aux0_pll_clk_active(&self, at_level: &PoweredClock) -> (r: Result<
        u32,
        ClockError,
    >)
        ensures
            r == ensure_active(self.aux0_pll, ClockId::Aux0Pll, *at_level),
    {
        ensure_clock_active(&self.aux0_pll, ClockId::Aux0Pll, at_level)
    }

    /// Frequency of the AUX1 PLL clock, if it runs at `at_level`.
    pub fn ensure_aux1_pll_clk_active(&self, at_level: &PoweredClock) -> (r: Result<
        u32,
        ClockError,
    >)
        ensures
            r == ensure_active(self.aux1_pll, ClockId::Aux1Pll, *at_level),
    {
        ensure_clock_active(&self.aux1_pll, ClockId::Aux1Pll, at_level)
    }

    /// Frequency of the 32 kHz RTC clock, if it runs at `at_level`.
    pub fn ensure_32k_clk_active(&self, at_level: &PoweredClock) -> (r: Result<u32, ClockError>)
        ensures
            r == ensure_active(self.clk_32khz, ClockId::Clk32Khz, *at_level),
    {
        ensure_clock_active(&self.clk_32khz, ClockId::Clk32Khz, at_level)
    }
}

} // verus!

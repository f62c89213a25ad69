//! Peripheral Clock Helpers
//!
//! This module contains the configuration types and the methods used for applying
//! their configuration via the [`SPConfHelper`] trait.
//!
//! Applying a configuration is split in two: [`SPConfHelper::post_enable_config`]
//! decides, from a snapshot of the clock tree, the frequency the peripheral will
//! run at (or why it cannot run), and [`SPConfHelper::register_writes`] lists the
//! clock-control register writes that realise the configuration once that
//! decision has succeeded.

use vstd::prelude::*;

use super::{ClockError, ClockId, Clocks, PoweredClock, ProgErrorKind, ensure_active};

verus! {

/// Peripheral configuration handler.
///
/// Trait for peripheral-specific configuration operations.
pub trait SPConfHelper {
    /// The frequency (in Hz) the peripheral ends up clocked at, or the
    /// reason it cannot be clocked, for a given clock tree.
    spec fn post_enable_spec(&self, clocks: Clocks) -> Result<u32, ClockError>;

    /// The register writes that realise the configuration, in order.
    spec fn register_writes_spec(&self) -> Seq<ClockWrite>;

    /// Called after the peripheral clock is enabled and before its reset is
    /// released: resolves the peripheral's function clock.
    fn post_enable_config(&self, clocks: &Clocks) -> (r: Result<u32, ClockError>)
        ensures
            r == self.post_enable_spec(*clocks),
    ;

    /// The clock-control register writes to perform when
    /// [`SPConfHelper::post_enable_config`] succeeds.
    fn register_writes(&self) -> (r: Vec<ClockWrite>)
        ensures
            r@ == self.register_writes_spec(),
    ;
}

/// Resolves a peripheral's function clock and the register writes that set
/// it up. The writes come only with the frequency: a configuration whose
/// clock cannot be resolved yields its error and no writes at all.
pub fn enable_plan<C: SPConfHelper>(config: &C, clocks: &Clocks) -> (r: Result<
    (u32, Vec<ClockWrite>),
    ClockError,
>)
    ensures
        match (r, config.post_enable_spec(*clocks)) {
            (Ok((f, w)), Ok(g)) => f == g && w@ == config.register_writes_spec(),
            (Err(e), Err(g)) => e == g,
            _ => false,
        },
{
    match config.post_enable_config(clocks) {
        Ok(f) => Ok((f, config.register_writes())),
        Err(e) => Err(e),
    }
}

/// A clock-select multiplexer register.
#[derive(Debug, Clone, Copy, PartialEq, Eq, Structural)]
pub enum ClockSelectReg {
    /// FRGCLKSEL of Flexcomm n.
    FlexcommFrg(usize),
    /// FCFCLKSEL of Flexcomm n.
    FlexcommFclk(usize),
    /// FRG14CLKSEL.
    Frg14,
    /// FC14FCLKSEL.
    Fc14Fclk,
    /// FRG15CLKSEL.
    Frg15,
    /// FC15FCLKSEL.
    Fc15Fclk,
    /// ADC0FCLKSEL0.
    Adc0Sel0,
    /// ADC0FCLKSEL1.
    Adc0Sel1,
    /// SCTFCLKSEL.
    Sct,
    /// WDT0FCLKSEL.
    Wdt0,
    /// WDT1FCLKSEL.
    Wdt1,
    /// CT32BITFCLKSEL n.
    CTimer(usize),
    /// OSEVENTFCLKSEL.
    OsEvent,
}

/// A fractional rate generator control register.
#[derive(Debug, Clone, Copy, PartialEq, Eq, Structural)]
pub enum FrgCtlReg {
    /// FRGCTL of Flexcomm n.
    Flexcomm(usize),
    /// FRG14CTL.
    Frg14,
    /// FRG15CTL.
    Frg15,
}

/// An integer clock divider register.
#[derive(Debug, Clone, Copy, PartialEq, Eq, Structural)]
pub enum DividerReg {
    /// ADC0FCLKDIV.
    Adc0,
    /// SCTFCLKDIV.
    Sct,
}

/// One step of programming the clock controller.
#[derive(Debug, Clone, Copy, PartialEq, Eq, Structural)]
pub enum ClockWrite {
    /// Set the SEL field of a multiplexer.
    Select(ClockSelectReg, u8),
    /// Set the MULT and DIV fields of a fractional rate generator.
    FrgCtl(FrgCtlReg, u8, u8),
    /// Halt and reset the divider, set its DIV field, release it, and wait
    /// until the change has taken effect.
    Divider(DividerReg, u8),
}

/// Flexcomm Fractional Rate Generator Select
#[derive(Debug, Copy, Clone)]
pub enum FlexcommFrgSel {
    /// 0: Main Clock.
    MainClk,
    /// 1: FRG PLL Clock.
    FrgPllClk,
    /// 2: SFRO Clock.
    SfroClk,
    /// 3: FFRO Clock.
    FfroClk,
    /// 7: No clock, this may be selected in order to reduce power when no output is needed.
    NoClock,
}

/// Flexcomm Functional Clock Select
#[derive(Debug, Copy, Clone)]
pub enum FlexcommFclkSel {
    /// 0: SFRO Clock.
    SfroClk,
    /// 1: FFRO Clock.
    FfroClk,
    /// 2: Audio PLL Clock.
    AudioPllClk,
    /// 3: Master Clock In.
    MasterClk,
    /// 4: FCn FRG Clock.
    FcnFrgClk,
    /// 7: No clock, this may be selected in order to reduce power when no output is needed.
    NoClock,
}

/// CTimer clock select
#[derive(Debug, Copy, Clone)]
pub enum CTimerSel {
    /// 0: Main Clock.
    MainClk,
    /// 1: SFRO Clock.
    SfroClk,
    /// 2: FFRO Clock.
    FfroClk,
    /// 3: Audio PLL Clock.
    AudioPllClk,
    /// 4: Master Clock In.
    MasterClk,
    /// 5: Low Power Oscillator Clock (LPOSC).
    Lposc,
    /// 7: No clock, this may be selected in order to reduce power when no output is needed.
    NoClock,
}

/// ADC0 Clock Select
#[derive(Debug, Copy, Clone)]
pub enum AdcSel0 {
    /// 0: SFRO Clock.
    SfroClk,
    /// 1: XTALIN Clock.
    XtalinClk,
    /// 2: Low Power Oscillator Clock (LPOSC).
    Lposc,
    /// 3: FFRO Clock.
    FfroClk,
    /// 7: No clock, this may be selected in order to reduce power when no output is needed.
    NoClock,
}

/// ADC1 Clock Select
#[derive(Debug, Copy, Clone)]
pub enum AdcSel1 {
    /// 0: ADC0FCLKSEL0 Multiplexed Output.
    Adc0fclksel0MuxOut,
    /// 1: SYSPLL0 MAIN_CLK (PFD0 Output)
    Syspll0MainClk,
    /// 3: SYSPLL0 AUX0_PLL_Clock.
    Syspll0Aux0PllClock,
    /// 5: SYSPLL0 AUX1_PLL_Clock.
    Syspll0Aux1PllClock,
    /// 7: No clock, this may be selected in order to reduce power when no output is needed.
    NoClock,
}

/// Flexcomm instance index
#[derive(Copy, Clone)]
pub enum FlexcommInstance {
    Flexcomm0,
    Flexcomm1,
    Flexcomm2,
    Flexcomm3,
    Flexcomm4,
    Flexcomm5,
    Flexcomm6,
    Flexcomm7,
}

/// Flexcomm 0..=7 configuration
pub struct FlexcommConfig {
    pub frg_clk_sel: FlexcommFrgSel,
    pub fc_clk_sel: FlexcommFclkSel,
    pub instance: FlexcommInstance,
    pub mult: u8,
    pub powered: PoweredClock,
}

/// Flexcomm14 configuration
pub struct FlexcommConfig14 {
    pub frg_clk_sel: FlexcommFrgSel,
    pub fc_clk_sel: FlexcommFclkSel,
    pub mult: u8,
    pub powered: PoweredClock,
}

/// Flexcomm15 configuration
pub struct FlexcommConfig15 {
    pub frg_clk_sel: FlexcommFrgSel,
    pub fc_clk_sel: FlexcommFclkSel,
    pub mult: u8,
    pub powered: PoweredClock,
}

/// ADC configuration
pub struct AdcConfig {
    pub sel0: AdcSel0,
    pub sel1: AdcSel1,
    pub div: u8,
    pub powered: PoweredClock,
}

/// clock source indicator for selecting while powering on the `SCTimer`
#[derive(Copy, Clone, Debug)]
pub enum SCTClockSource {
    /// main clock
    Main,
    /// main PLL clock (`main_pll_clk`)
    MainPLL,
    /// `aux0_pll_clk`
    Aux0Pll,
    /// `48/60m_irc`
    Ffro48_60Mhz,
    /// `aux1_pll_clk`
    Aux1Pll,
    /// `audio_pll_clk`
    AudioPLL,
    /// lowest power selection
    NoClock,
}

/// SCTimer0 Configuration
pub struct Sct0Config {
    pub source: SCTClockSource,
    pub div: u8,
    pub powered: PoweredClock,
}

/// Watchdog Clock Select
pub enum WdtClkSel {
    LpOsc1m,
    NoClock,
}

/// Watchdog Timer Index
pub enum WdtInstance {
    Wwdt0,
    Wwdt1,
}

/// Watchdog Timer Config
pub struct WdtConfig {
    pub source: WdtClkSel,
    pub instance: WdtInstance,
    pub powered: PoweredClock,
}

/// CTimer Instance
#[derive(Clone, Copy)]
pub enum CTimerInstance {
    CTimer0,
    CTimer1,
    CTimer2,
    CTimer3,
    CTimer4,
}

/// CTimer Config
pub struct CtimerConfig {
    pub source: CTimerSel,
    pub instance: CTimerInstance,
    pub powered: PoweredClock,
}

/// OS Event Clock Select
pub enum OsEventClockSelect {
    /// 0: Low Power Oscillator Clock (LPOSC).
    Lposc,
    /// 1: RTC 32KHz Clock.
    Rtc32khzClk,
    /// 2: Teal Free Running Clock (Global Time Stamping)
    TealFreeRunningClk,
    /// 7: No clock, this may be selected in order to reduce power when no output is needed.
    NoClock,
}

/// OS Event Timer Config
pub struct OsEventConfig {
    pub select: OsEventClockSelect,
    pub powered: PoweredClock,
}

/// Used when a clock has no upstream clocks that need to be configured or verified.
pub struct NoConfig;

/// Placeholder Config for peripherals that are not implemented yet, but definitely
/// require some kind of "pre-flight check" to ensure upstream clocks are enabled and
/// select/divs are made.
pub struct UnimplementedConfig;

//
// Selector field values
//

/// SEL field value of the FRG clock selectors (FRGnCLKSEL, FRG14CLKSEL, FRG15CLKSEL).
pub open spec fn frg_sel_bits(sel: FlexcommFrgSel) -> u8 {
    match sel {
        FlexcommFrgSel::MainClk => 0,
        FlexcommFrgSel::FrgPllClk => 1,
        FlexcommFrgSel::SfroClk => 2,
        FlexcommFrgSel::FfroClk => 3,
        FlexcommFrgSel::NoClock => 7,
    }
}

/// SEL field value of the Flexcomm function clock selectors.
pub open spec fn fclk_sel_bits(sel: FlexcommFclkSel) -> u8 {
    match sel {
        FlexcommFclkSel::SfroClk => 0,
        FlexcommFclkSel::FfroClk => 1,
        FlexcommFclkSel::AudioPllClk => 2,
        FlexcommFclkSel::MasterClk => 3,
        FlexcommFclkSel::FcnFrgClk => 4,
        FlexcommFclkSel::NoClock => 7,
    }
}

/// SEL field value of CT32BITnFCLKSEL.
pub open spec fn ctimer_sel_bits(sel: CTimerSel) -> u8 {
    match sel {
        CTimerSel::MainClk => 0,
        CTimerSel::SfroClk => 1,
        CTimerSel::FfroClk => 2,
        CTimerSel::AudioPllClk => 3,
        CTimerSel::MasterClk => 4,
        CTimerSel::Lposc => 5,
        CTimerSel::NoClock => 7,
    }
}

/// SEL field value of ADC0FCLKSEL0.
pub open spec fn adc_sel0_bits(sel: AdcSel0) -> u8 {
    match sel {
        AdcSel0::SfroClk => 0,
        AdcSel0::XtalinClk => 1,
        AdcSel0::Lposc => 2,
        AdcSel0::FfroClk => 3,
        AdcSel0::NoClock => 7,
    }
}

/// SEL field value of ADC0FCLKSEL1.
pub open spec fn adc_sel1_bits(sel: AdcSel1) -> u8 {
    match sel {
        AdcSel1::Adc0fclksel0MuxOut => 0,
        AdcSel1::Syspll0MainClk => 1,
        AdcSel1::Syspll0Aux0PllClock => 3,
        AdcSel1::Syspll0Aux1PllClock => 5,
        AdcSel1::NoClock => 7,
    }
}

/// SEL field value meaning "no clock" in every clock selector.
pub const SEL_NONE: u8 = 7;

/// The SEL field values of `clkctl1::flexcomm::frgclksel::Sel` in mimxrt685s-pac, variants MainClk, FrgPllClk, SfroClk, FfroClk, None in this order: the `From<Sel> for u8` conversion of a `repr(u8)` enum with discriminants 0, 1, 2, 3, 7.
#[verifier::external_body]
fn flexcomm_frg_sel_values() -> (r: (u8, u8, u8, u8, u8))
    ensures
        r.0 == 0,
        r.1 == 1,
        r.2 == 2,
        r.3 == 3,
        r.4 == 7,
{
    (u8::from(mimxrt685s_pac::clkctl1::flexcomm::frgclksel::Sel::MainClk), u8::from(mimxrt685s_pac::clkctl1::flexcomm::frgclksel::Sel::FrgPllClk), u8::from(mimxrt685s_pac::clkctl1::flexcomm::frgclksel::Sel::SfroClk), u8::from(mimxrt685s_pac::clkctl1::flexcomm::frgclksel::Sel::FfroClk), u8::from(mimxrt685s_pac::clkctl1::flexcomm::frgclksel::Sel::None))
}

/// The SEL field values of `clkctl1::frg14clksel::Sel` in mimxrt685s-pac, variants MainClk, FrgPllClk, SfroClk, FfroClk, None in this order: the `From<Sel> for u8` conversion of a `repr(u8)` enum with discriminants 0, 1, 2, 3, 7.
#[verifier::external_body]
fn frg14_sel_values() -> (r: (u8, u8, u8, u8, u8))
    ensures
        r.0 == 0,
        r.1 == 1,
        r.2 == 2,
        r.3 == 3,
        r.4 == 7,
{
    (u8::from(mimxrt685s_pac::clkctl1::frg14clksel::Sel::MainClk), u8::from(mimxrt685s_pac::clkctl1::frg14clksel::Sel::FrgPllClk), u8::from(mimxrt685s_pac::clkctl1::frg14clksel::Sel::SfroClk), u8::from(mimxrt685s_pac::clkctl1::frg14clksel::Sel::FfroClk), u8::from(mimxrt685s_pac::clkctl1::frg14clksel::Sel::None))
}

/// The SEL field values of `clkctl1::frg15clksel::Sel` in mimxrt685s-pac, variants MainClk, FrgPllClk, SfroClk, FfroClk, None in this order: the `From<Sel> for u8` conversion of a `repr(u8)` enum with discriminants 0, 1, 2, 3, 7.
#[verifier::external_body]
fn frg15_sel_values() -> (r: (u8, u8, u8, u8, u8))
    ensures
        r.0 == 0,
        r.1 == 1,
        r.2 == 2,
        r.3 == 3,
        r.4 == 7,
{
    (u8::from(mimxrt685s_pac::clkctl1::frg15clksel::Sel::MainClk), u8::from(mimxrt685s_pac::clkctl1::frg15clksel::Sel::FrgPllClk), u8::from(mimxrt685s_pac::clkctl1::frg15clksel::Sel::SfroClk), u8::from(mimxrt685s_pac::clkctl1::frg15clksel::Sel::FfroClk), u8::from(mimxrt685s_pac::clkctl1::frg15clksel::Sel::None))
}

/// The SEL field values of `clkctl1::flexcomm::fcfclksel::Sel` in mimxrt685s-pac, variants SfroClk, FfroClk, AudioPllClk, MasterClk, FcnFrgClk, None in this order: the `From<Sel> for u8` conversion of a `repr(u8)` enum with discriminants 0, 1, 2, 3, 4, 7.
#[verifier::external_body]
fn flexcomm_fclk_sel_values() -> (r: (u8, u8, u8, u8, u8, u8))
    ensures
        r.0 == 0,
        r.1 == 1,
        r.2 == 2,
        r.3 == 3,
        r.4 == 4,
        r.5 == 7,
{
    (u8::from(mimxrt685s_pac::clkctl1::flexcomm::fcfclksel::Sel::SfroClk), u8::from(mimxrt685s_pac::clkctl1::flexcomm::fcfclksel::Sel::FfroClk), u8::from(mimxrt685s_pac::clkctl1::flexcomm::fcfclksel::Sel::AudioPllClk), u8::from(mimxrt685s_pac::clkctl1::flexcomm::fcfclksel::Sel::MasterClk), u8::from(mimxrt685s_pac::clkctl1::flexcomm::fcfclksel::Sel::FcnFrgClk), u8::from(mimxrt685s_pac::clkctl1::flexcomm::fcfclksel::Sel::None))
}

/// The SEL field values of `clkctl1::fc14fclksel::Sel` in mimxrt685s-pac, variants SfroClk, FfroClk, AudioPllClk, MasterClk, FcnFrgClk, None in this order: the `From<Sel> for u8` conversion of a `repr(u8)` enum with discriminants 0, 1, 2, 3, 4, 7.
#[verifier::external_body]
fn fc14_fclk_sel_values() -> (r: (u8, u8, u8, u8, u8, u8))
    ensures
        r.0 == 0,
        r.1 == 1,
        r.2 == 2,
        r.3 == 3,
        r.4 == 4,
        r.5 == 7,
{
    (u8::from(mimxrt685s_pac::clkctl1::fc14fclksel::Sel::SfroClk), u8::from(mimxrt685s_pac::clkctl1::fc14fclksel::Sel::FfroClk), u8::from(mimxrt685s_pac::clkctl1::fc14fclksel::Sel::AudioPllClk), u8::from(mimxrt685s_pac::clkctl1::fc14fclksel::Sel::MasterClk), u8::from(mimxrt685s_pac::clkctl1::fc14fclksel::Sel::FcnFrgClk), u8::from(mimxrt685s_pac::clkctl1::fc14fclksel::Sel::None))
}

/// The SEL field values of `clkctl1::fc15fclksel::Sel` in mimxrt685s-pac, variants SfroClk, FfroClk, AudioPllClk, MasterClk, FcnFrgClk, None in this order: the `From<Sel> for u8` conversion of a `repr(u8)` enum with discriminants 0, 1, 2, 3, 4, 7.
#[verifier::external_body]
fn fc15_fclk_sel_values() -> (r: (u8, u8, u8, u8, u8, u8))
    ensures
        r.0 == 0,
        r.1 == 1,
        r.2 == 2,
        r.3 == 3,
        r.4 == 4,
        r.5 == 7,
{
    (u8::from(mimxrt685s_pac::clkctl1::fc15fclksel::Sel::SfroClk), u8::from(mimxrt685s_pac::clkctl1::fc15fclksel::Sel::FfroClk), u8::from(mimxrt685s_pac::clkctl1::fc15fclksel::Sel::AudioPllClk), u8::from(mimxrt685s_pac::clkctl1::fc15fclksel::Sel::MasterClk), u8::from(mimxrt685s_pac::clkctl1::fc15fclksel::Sel::FcnFrgClk), u8::from(mimxrt685s_pac::clkctl1::fc15fclksel::Sel::None))
}

/// The SEL field values of `clkctl1::ct32bitfclksel::Sel` in mimxrt685s-pac, variants MainClk, SfroClk, FfroClk, AudioPllClk, MasterClk, Lposc, None in this order: the `From<Sel> for u8` conversion of a `repr(u8)` enum with discriminants 0, 1, 2, 3, 4, 5, 7.
#[verifier::external_body]
fn ctimer_sel_values() -> (r: (u8, u8, u8, u8, u8, u8, u8))
    ensures
        r.0 == 0,
        r.1 == 1,
        r.2 == 2,
        r.3 == 3,
        r.4 == 4,
        r.5 == 5,
        r.6 == 7,
{
    (u8::from(mimxrt685s_pac::clkctl1::ct32bitfclksel::Sel::MainClk), u8::from(mimxrt685s_pac::clkctl1::ct32bitfclksel::Sel::SfroClk), u8::from(mimxrt685s_pac::clkctl1::ct32bitfclksel::Sel::FfroClk), u8::from(mimxrt685s_pac::clkctl1::ct32bitfclksel::Sel::AudioPllClk), u8::from(mimxrt685s_pac::clkctl1::ct32bitfclksel::Sel::MasterClk), u8::from(mimxrt685s_pac::clkctl1::ct32bitfclksel::Sel::Lposc), u8::from(mimxrt685s_pac::clkctl1::ct32bitfclksel::Sel::None))
}

/// The SEL field values of `clkctl0::adc0fclksel0::Sel` in mimxrt685s-pac, variants SfroClk, XtalinClk, Lposc, FfroClk, None in this order: the `From<Sel> for u8` conversion of a `repr(u8)` enum with discriminants 0, 1, 2, 3, 7.
#[verifier::external_body]
fn adc_sel0_values() -> (r: (u8, u8, u8, u8, u8))
    ensures
        r.0 == 0,
        r.1 == 1,
        r.2 == 2,
        r.3 == 3,
        r.4 == 7,
{
    (u8::from(mimxrt685s_pac::clkctl0::adc0fclksel0::Sel::SfroClk), u8::from(mimxrt685s_pac::clkctl0::adc0fclksel0::Sel::XtalinClk), u8::from(mimxrt685s_pac::clkctl0::adc0fclksel0::Sel::Lposc), u8::from(mimxrt685s_pac::clkctl0::adc0fclksel0::Sel::FfroClk), u8::from(mimxrt685s_pac::clkctl0::adc0fclksel0::Sel::None))
}

/// The SEL field values of `clkctl0::adc0fclksel1::Sel` in mimxrt685s-pac, variants Adc0fclksel0MuxOut, Syspll0MainClk, Syspll0Aux0PllClock, Syspll0Aux1PllClock, None in this order: the `From<Sel> for u8` conversion of a `repr(u8)` enum with discriminants 0, 1, 3, 5, 7.
#[verifier::external_body]
fn adc_sel1_values() -> (r: (u8, u8, u8, u8, u8))
    ensures
        r.0 == 0,
        r.1 == 1,
        r.2 == 3,
        r.3 == 5,
        r.4 == 7,
{
    (u8::from(mimxrt685s_pac::clkctl0::adc0fclksel1::Sel::Adc0fclksel0MuxOut), u8::from(mimxrt685s_pac::clkctl0::adc0fclksel1::Sel::Syspll0MainClk), u8::from(mimxrt685s_pac::clkctl0::adc0fclksel1::Sel::Syspll0Aux0PllClock), u8::from(mimxrt685s_pac::clkctl0::adc0fclksel1::Sel::Syspll0Aux1PllClock), u8::from(mimxrt685s_pac::clkctl0::adc0fclksel1::Sel::None))
}

/// The SEL field values of `clkctl0::sctfclksel::Sel` in mimxrt685s-pac, variants MainClk, MainSysPllClk, Syspll0Aux0PllClock, FfroClk, Syspll0Aux1PllClock, AudioPllClk, None in this order: the `From<Sel> for u8` conversion of a `repr(u8)` enum with discriminants 0, 1, 2, 3, 4, 5, 7.
#[verifier::external_body]
fn sct_sel_values() -> (r: (u8, u8, u8, u8, u8, u8, u8))
    ensures
        r.0 == 0,
        r.1 == 1,
        r.2 == 2,
        r.3 == 3,
        r.4 == 4,
        r.5 == 5,
        r.6 == 7,
{
    (u8::from(mimxrt685s_pac::clkctl0::sctfclksel::Sel::MainClk), u8::from(mimxrt685s_pac::clkctl0::sctfclksel::Sel::MainSysPllClk), u8::from(mimxrt685s_pac::clkctl0::sctfclksel::Sel::Syspll0Aux0PllClock), u8::from(mimxrt685s_pac::clkctl0::sctfclksel::Sel::FfroClk), u8::from(mimxrt685s_pac::clkctl0::sctfclksel::Sel::Syspll0Aux1PllClock), u8::from(mimxrt685s_pac::clkctl0::sctfclksel::Sel::AudioPllClk), u8::from(mimxrt685s_pac::clkctl0::sctfclksel::Sel::None))
}

/// The SEL field values of `clkctl1::oseventfclksel::Sel` in mimxrt685s-pac, variants Lposc, Rtc32khzClk, TealFreeRunningClk, None in this order: the `From<Sel> for u8` conversion of a `repr(u8)` enum with discriminants 0, 1, 2, 7.
#[verifier::external_body]
fn os_event_sel_values() -> (r: (u8, u8, u8, u8))
    ensures
        r.0 == 0,
        r.1 == 1,
        r.2 == 2,
        r.3 == 7,
{
    (u8::from(mimxrt685s_pac::clkctl1::oseventfclksel::Sel::Lposc), u8::from(mimxrt685s_pac::clkctl1::oseventfclksel::Sel::Rtc32khzClk), u8::from(mimxrt685s_pac::clkctl1::oseventfclksel::Sel::TealFreeRunningClk), u8::from(mimxrt685s_pac::clkctl1::oseventfclksel::Sel::None))
}

/// The SEL field values of `clkctl0::wdt0fclksel::Sel` in mimxrt685s-pac, variants Lposc, None in this order: the `From<Sel> for u8` conversion of a `repr(u8)` enum with discriminants 0, 7.
#[verifier::external_body]
fn wdt0_sel_values() -> (r: (u8, u8))
    ensures
        r.0 == 0,
        r.1 == 7,
{
    (u8::from(mimxrt685s_pac::clkctl0::wdt0fclksel::Sel::Lposc), u8::from(mimxrt685s_pac::clkctl0::wdt0fclksel::Sel::None))
}

/// The SEL field values of `clkctl1::wdt1fclksel::Sel` in mimxrt685s-pac, variants Lposc, None in this order: the `From<Sel> for u8` conversion of a `repr(u8)` enum with discriminants 0, 7.
#[verifier::external_body]
fn wdt1_sel_values() -> (r: (u8, u8))
    ensures
        r.0 == 0,
        r.1 == 7,
{
    (u8::from(mimxrt685s_pac::clkctl1::wdt1fclksel::Sel::Lposc), u8::from(mimxrt685s_pac::clkctl1::wdt1fclksel::Sel::None))
}

impl FlexcommFrgSel {
    /// Selector value for FRGnCLKSEL of Flexcomm 0..=7.
    pub fn into_pac(self) -> (r: u8)
        ensures
            r == frg_sel_bits(self),
    {
        let v = flexcomm_frg_sel_values();
        match self {
            FlexcommFrgSel::MainClk => v.0,
            FlexcommFrgSel::FrgPllClk => v.1,
            FlexcommFrgSel::SfroClk => v.2,
            FlexcommFrgSel::FfroClk => v.3,
            FlexcommFrgSel::NoClock => v.4,
        }
    }

    /// Selector value for FRG14CLKSEL.
    pub fn into_pac14(self) -> (r: u8)
        ensures
            r == frg_sel_bits(self),
    {
        let v = frg14_sel_values();
        match self {
            FlexcommFrgSel::MainClk => v.0,
            FlexcommFrgSel::FrgPllClk => v.1,
            FlexcommFrgSel::SfroClk => v.2,
            FlexcommFrgSel::FfroClk => v.3,
            FlexcommFrgSel::NoClock => v.4,
        }
    }

    /// Selector value for FRG15CLKSEL.
    pub fn into_pac15(self) -> (r: u8)
        ensures
            r == frg_sel_bits(self),
    {
        let v = frg15_sel_values();
        match self {
            FlexcommFrgSel::MainClk => v.0,
            FlexcommFrgSel::FrgPllClk => v.1,
            FlexcommFrgSel::SfroClk => v.2,
            FlexcommFrgSel::FfroClk => v.3,
            FlexcommFrgSel::NoClock => v.4,
        }
    }
}

impl FlexcommFclkSel {
    /// Selector value for FCFCLKSEL of Flexcomm 0..=7.
    pub fn into_pac(self) -> (r: u8)
        ensures
            r == fclk_sel_bits(self),
    {
        let v = flexcomm_fclk_sel_values();
        match self {
            FlexcommFclkSel::SfroClk => v.0,
            FlexcommFclkSel::FfroClk => v.1,
            FlexcommFclkSel::AudioPllClk => v.2,
            FlexcommFclkSel::MasterClk => v.3,
            FlexcommFclkSel::FcnFrgClk => v.4,
            FlexcommFclkSel::NoClock => v.5,
        }
    }

    /// Selector value for FC14FCLKSEL.
    pub fn into_pac14(self) -> (r: u8)
        ensures
            r == fclk_sel_bits(self),
    {
        let v = fc14_fclk_sel_values();
        match self {
            FlexcommFclkSel::SfroClk => v.0,
            FlexcommFclkSel::FfroClk => v.1,
            FlexcommFclkSel::AudioPllClk => v.2,
            FlexcommFclkSel::MasterClk => v.3,
            FlexcommFclkSel::FcnFrgClk => v.4,
            FlexcommFclkSel::NoClock => v.5,
        }
    }

    /// Selector value for FC15FCLKSEL.
    pub fn into_pac15(self) -> (r: u8)
        ensures
            r == fclk_sel_bits(self),
    {
        let v = fc15_fclk_sel_values();
        match self {
            FlexcommFclkSel::SfroClk => v.0,
            FlexcommFclkSel::FfroClk => v.1,
            FlexcommFclkSel::AudioPllClk => v.2,
            FlexcommFclkSel::MasterClk => v.3,
            FlexcommFclkSel::FcnFrgClk => v.4,
            FlexcommFclkSel::NoClock => v.5,
        }
    }
}

impl CTimerSel {
    /// Selector value for CT32BITnFCLKSEL.
    pub fn into_pac(self) -> (r: u8)
        ensures
            r == ctimer_sel_bits(self),
    {
        let v = ctimer_sel_values();
        match self {
            CTimerSel::MainClk => v.0,
            CTimerSel::SfroClk => v.1,
            CTimerSel::FfroClk => v.2,
            CTimerSel::AudioPllClk => v.3,
            CTimerSel::MasterClk => v.4,
            CTimerSel::Lposc => v.5,
            CTimerSel::NoClock => v.6,
        }
    }
}

impl AdcSel0 {
    /// Selector value for ADC0FCLKSEL0.
    pub fn into_pac(self) -> (r: u8)
        ensures
            r == adc_sel0_bits(self),
    {
        let v = adc_sel0_values();
        match self {
            AdcSel0::SfroClk => v.0,
            AdcSel0::XtalinClk => v.1,
            AdcSel0::Lposc => v.2,
            AdcSel0::FfroClk => v.3,
            AdcSel0::NoClock => v.4,
        }
    }
}

impl AdcSel1 {
    /// Selector value for ADC0FCLKSEL1.
    pub fn into_pac(self) -> (r: u8)
        ensures
            r == adc_sel1_bits(self),
    {
        let v = adc_sel1_values();
        match self {
            AdcSel1::Adc0fclksel0MuxOut => v.0,
            AdcSel1::Syspll0MainClk => v.1,
            AdcSel1::Syspll0Aux0PllClock => v.2,
            AdcSel1::Syspll0Aux1PllClock => v.3,
            AdcSel1::NoClock => v.4,
        }
    }
}

/// Index of a Flexcomm instance.
pub open spec fn flexcomm_index(instance: FlexcommInstance) -> usize {
    match instance {
        FlexcommInstance::Flexcomm0 => 0,
        FlexcommInstance::Flexcomm1 => 1,
        FlexcommInstance::Flexcomm2 => 2,
        FlexcommInstance::Flexcomm3 => 3,
        FlexcommInstance::Flexcomm4 => 4,
        FlexcommInstance::Flexcomm5 => 5,
        FlexcommInstance::Flexcomm6 => 6,
        FlexcommInstance::Flexcomm7 => 7,
    }
}

impl FlexcommInstance {
    /// Index of the instance's register block.
    pub fn index(self) -> (r: usize)
        ensures
            r == flexcomm_index(self),
    {
        match self {
            FlexcommInstance::Flexcomm0 => 0,
            FlexcommInstance::Flexcomm1 => 1,
            FlexcommInstance::Flexcomm2 => 2,
            FlexcommInstance::Flexcomm3 => 3,
            FlexcommInstance::Flexcomm4 => 4,
            FlexcommInstance::Flexcomm5 => 5,
            FlexcommInstance::Flexcomm6 => 6,
            FlexcommInstance::Flexcomm7 => 7,
        }
    }
}

/// Index of a CTimer instance.
pub open spec fn ctimer_index(instance: CTimerInstance) -> usize {
    match instance {
        CTimerInstance::CTimer0 => 0,
        CTimerInstance::CTimer1 => 1,
        CTimerInstance::CTimer2 => 2,
        CTimerInstance::CTimer3 => 3,
        CTimerInstance::CTimer4 => 4,
    }
}

impl CTimerInstance {
    /// Index of the instance's clock selector.
    pub fn index(self) -> (r: usize)
        ensures
            r == ctimer_index(self),
    {
        match self {
            CTimerInstance::CTimer0 => 0,
            CTimerInstance::CTimer1 => 1,
            CTimerInstance::CTimer2 => 2,
            CTimerInstance::CTimer3 => 3,
            CTimerInstance::CTimer4 => 4,
        }
    }
}

//
// Frequencies
//

/// Frequency at the input of a fractional rate generator.
pub open spec fn frg_source(sel: FlexcommFrgSel, clocks: Clocks, powered: PoweredClock) -> Result<
    u32,
    ClockError,
> {
    match sel {
        FlexcommFrgSel::MainClk => Ok(clocks.main_clk),
        FlexcommFrgSel::FrgPllClk => ensure_active(clocks.frg_pll, ClockId::FrgPll, powered),
        FlexcommFrgSel::SfroClk => ensure_active(clocks.sfro_16mhz, ClockId::Sfro16Mhz, powered),
        FlexcommFrgSel::FfroClk => ensure_active(
            clocks.ffro_48_60mhz,
            ClockId::Ffro48_60Mhz,
            powered,
        ),
        FlexcommFrgSel::NoClock => Ok(0),
    }
}

/// Output of a fractional rate generator with DIV fixed to 0xFF:
/// `FOUT = CLK / (1 + MULT / 256) = (CLK * 256) / (256 + MULT)`.
pub open spec fn frg_output(freq: u32, mult: u8) -> u32 {
    ((freq as int * 256) / (mult as int + 256)) as u32
}

/// Function clock of a Flexcomm with the given selections.
pub open spec fn flexcomm_clock(
    fc_sel: FlexcommFclkSel,
    frg_sel: FlexcommFrgSel,
    mult: u8,
    clocks: Clocks,
    powered: PoweredClock,
) -> Result<u32, ClockError> {
    match fc_sel {
        FlexcommFclkSel::FcnFrgClk => match frg_source(frg_sel, clocks, powered) {
            Ok(f) => Ok(frg_output(f, mult)),
            Err(e) => Err(e),
        },
        FlexcommFclkSel::SfroClk => ensure_active(clocks.sfro_16mhz, ClockId::Sfro16Mhz, powered),
        FlexcommFclkSel::FfroClk => ensure_active(
            clocks.ffro_48_60mhz,
            ClockId::Ffro48_60Mhz,
            powered,
        ),
        FlexcommFclkSel::AudioPllClk => Err(ClockError::ProgError(ProgErrorKind::NotImplemented)),
        FlexcommFclkSel::MasterClk => Err(ClockError::ProgError(ProgErrorKind::NotImplemented)),
        FlexcommFclkSel::NoClock => Ok(0),
    }
}

/// Output of an integer divider whose DIV field holds `div`.
pub open spec fn divided(freq: u32, div: u8) -> u32 {
    (freq as int / (1 + div as int)) as u32
}

/// Frequency at the input of the ADC clock divider.
pub open spec fn adc_source(cfg: AdcConfig, clocks: Clocks) -> Result<u32, ClockError> {
    match cfg.sel1 {
        AdcSel1::Adc0fclksel0MuxOut => match cfg.sel0 {
            AdcSel0::SfroClk => ensure_active(clocks.sfro_16mhz, ClockId::Sfro16Mhz, cfg.powered),
            AdcSel0::XtalinClk => ensure_active(clocks.clk_in, ClockId::ClkIn, cfg.powered),
            AdcSel0::Lposc => ensure_active(clocks.lposc_1mhz, ClockId::Lposc1Mhz, cfg.powered),
            AdcSel0::FfroClk => ensure_active(
                clocks.ffro_48_60mhz,
                ClockId::Ffro48_60Mhz,
                cfg.powered,
            ),
            AdcSel0::NoClock => Ok(0),
        },
        AdcSel1::Syspll0MainClk => ensure_active(clocks.main_pll, ClockId::MainPll, cfg.powered),
        AdcSel1::Syspll0Aux0PllClock => ensure_active(clocks.aux0_pll, ClockId::Aux0Pll, cfg.powered),
        AdcSel1::Syspll0Aux1PllClock => ensure_active(clocks.aux1_pll, ClockId::Aux1Pll, cfg.powered),
        AdcSel1::NoClock => Ok(0),
    }
}

/// Frequency at the input of the SCTimer clock divider.
pub open spec fn sct_source(cfg: Sct0Config, clocks: Clocks) -> Result<u32, ClockError> {
    match cfg.source {
        SCTClockSource::Main => Ok(clocks.main_clk),
        SCTClockSource::MainPLL => ensure_active(clocks.main_pll, ClockId::MainPll, cfg.powered),
        SCTClockSource::Aux0Pll => ensure_active(clocks.aux0_pll, ClockId::Aux0Pll, cfg.powered),
        SCTClockSource::Ffro48_60Mhz => ensure_active(
            clocks.ffro_48_60mhz,
            ClockId::Ffro48_60Mhz,
            cfg.powered,
        ),
        SCTClockSource::Aux1Pll => ensure_active(clocks.aux1_pll, ClockId::Aux1Pll, cfg.powered),
        SCTClockSource::AudioPLL => Err(ClockError::ProgError(ProgErrorKind::AudioPllNotSupported)),
        SCTClockSource::NoClock => Ok(0),
    }
}

/// SEL field value of SCTFCLKSEL for a source.
pub open spec fn sct_sel_bits(source: SCTClockSource) -> u8 {
    match source {
        SCTClockSource::Main => 0,
        SCTClockSource::MainPLL => 1,
        SCTClockSource::Aux0Pll => 2,
        SCTClockSource::Ffro48_60Mhz => 3,
        SCTClockSource::Aux1Pll => 4,
        SCTClockSource::AudioPLL => 5,
        SCTClockSource::NoClock => 7,
    }
}

fn frg_source_freq(sel: FlexcommFrgSel, clocks: &Clocks, powered: &PoweredClock) -> (r: Result<
    u32,
    ClockError,
>)
    ensures
        r == frg_source(sel, *clocks, *powered),
{
    match sel {
        FlexcommFrgSel::MainClk => Ok(clocks.main_clk),
        FlexcommFrgSel::FrgPllClk => clocks.ensure_frg_pll_active(powered),
        FlexcommFrgSel::SfroClk => clocks.ensure_16mhz_sfro_active(powered),
        FlexcommFrgSel::FfroClk => clocks.ensure_48_60mhz_ffro_active(powered),
        FlexcommFrgSel::NoClock => Ok(0),
    }
}

/// Output frequency of a fractional rate generator whose DIV field is 0xFF
/// (a divisor of 256) and whose MULT field is `mult`.
pub fn frg_divide(freq: u32, mult: u8) -> (r: u32)
    ensures
        r == frg_output(freq, mult),
        r <= freq,
{
    let scaled: u64 = freq as u64 * 256u64;
    let fdiv: u64 = mult as u64 + 256u64;
    let out: u64 = scaled / fdiv;
    proof {
        assert(out <= freq) by (nonlinear_arith)
            requires
                scaled == freq * 256,
                fdiv >= 256,
                out == scaled / fdiv,
        ;
    }
    out as u32
}

fn flexcomm_clock_freq(
    fc_sel: FlexcommFclkSel,
    frg_sel: FlexcommFrgSel,
    mult: u8,
    clocks: &Clocks,
    powered: &PoweredClock,
) -> (r: Result<u32, ClockError>)
    ensures
        r == flexcomm_clock(fc_sel, frg_sel, mult, *clocks, *powered),
{
    match fc_sel {
        FlexcommFclkSel::FcnFrgClk => {
            let src = frg_source_freq(frg_sel, clocks, powered);
            match src {
                Ok(f) => Ok(frg_divide(f, mult)),
                Err(e) => Err(e),
            }
        },
        FlexcommFclkSel::SfroClk => clocks.ensure_16mhz_sfro_active(powered),
        FlexcommFclkSel::FfroClk => clocks.ensure_48_60mhz_ffro_active(powered),
        FlexcommFclkSel::AudioPllClk => Err(ClockError::ProgError(ProgErrorKind::NotImplemented)),
        FlexcommFclkSel::MasterClk => Err(ClockError::ProgError(ProgErrorKind::NotImplemented)),
        FlexcommFclkSel::NoClock => Ok(0),
    }
}

/// Output frequency of an integer divider whose DIV field is `div`.
pub fn divide(freq: u32, div: u8) -> (r: u32)
    ensures
        r == divided(freq, div),
        r <= freq,
{
    freq / (1u32 + div as u32)
}

/// Whether the Flexcomm function clock is taken from the FRG.
pub open spec fn uses_frg(sel: FlexcommFclkSel) -> bool {
    match sel {
        FlexcommFclkSel::FcnFrgClk => true,
        _ => false,
    }
}

/// DIV field value of every FRG: a divisor of 256.
pub const FRG_DIV: u8 = 0xFF;

/// Writes for one Flexcomm-style block: FRG selector and control (when the
/// FRG feeds the function clock), then the function clock selector.
pub open spec fn flexcomm_writes(
    fc_sel: FlexcommFclkSel,
    frg_sel: FlexcommFrgSel,
    mult: u8,
    frg_reg: ClockSelectReg,
    ctl_reg: FrgCtlReg,
    fclk_reg: ClockSelectReg,
) -> Seq<ClockWrite> {
    if uses_frg(fc_sel) {
        seq![
            ClockWrite::Select(frg_reg, frg_sel_bits(frg_sel)),
            ClockWrite::FrgCtl(ctl_reg, mult, FRG_DIV),
            ClockWrite::Select(fclk_reg, fclk_sel_bits(fc_sel)),
        ]
    } else {
        seq![ClockWrite::Select(fclk_reg, fclk_sel_bits(fc_sel))]
    }
}

fn flexcomm_write_list(
    fc_sel: FlexcommFclkSel,
    frg_sel: FlexcommFrgSel,
    mult: u8,
    frg_reg: ClockSelectReg,
    ctl_reg: FrgCtlReg,
    fclk_reg: ClockSelectReg,
) -> (r: Vec<ClockWrite>)
    ensures
        r@ == flexcomm_writes(fc_sel, frg_sel, mult, frg_reg, ctl_reg, fclk_reg),
{
    let mut v: Vec<ClockWrite> = Vec::new();
    match fc_sel {
        FlexcommFclkSel::FcnFrgClk => {
            v.push(ClockWrite::Select(frg_reg, frg_sel.into_pac()));
            v.push(ClockWrite::FrgCtl(ctl_reg, mult, FRG_DIV));
        },
        _ => {},
    }
    v.push(ClockWrite::Select(fclk_reg, fc_sel.into_pac()));
    proof {
        assert(v@ =~= flexcomm_writes(fc_sel, frg_sel, mult, frg_reg, ctl_reg, fclk_reg));
    }
    v
}

impl SPConfHelper for FlexcommConfig {
    open spec fn post_enable_spec(&self, clocks: Clocks) -> Result<u32, ClockError> {
        flexcomm_clock(self.fc_clk_sel, self.frg_clk_sel, self.mult, clocks, self.powered)
    }

    open spec fn register_writes_spec(&self) -> Seq<ClockWrite> {
        let i = flexcomm_index(self.instance);
        flexcomm_writes(
            self.fc_clk_sel,
            self.frg_clk_sel,
            self.mult,
            ClockSelectReg::FlexcommFrg(i),
            FrgCtlReg::Flexcomm(i),
            ClockSelectReg::FlexcommFclk(i),
        )
    }

    //                                          16m_clk_irc ┌─────┐
    //                                           ──────────▶│000  │
    //                                           48/60m_irc │     │
    //                                           ──────────▶│001  │
    //   main_clk ┌─────┐                     audio_pll_clk │     │
    // ──────────▶│000  │                        ──────────▶│010  │ function clock
    //    frg_pll │     │                           mclk_in │     │────────────────▶
    // ──────────▶│001  │     ┌───────────────┐  ──────────▶│011  │  of Flexcomm n
    //    16m_irc │     │     │Fractional Rate│   frg_clk n │     │
    // ──────────▶│010  │────▶│Divider (FRG)  │────────────▶│100  │
    // 48/60m_irc │     │     └───────────────┘       "none"│     │
    // ──────────▶│011  │             ▲          ──────────▶│111  │
    //     "none" │     │             │                     └─────┘
    // ──────────▶│111  │       FRGnCTL[15:0]                  ▲
    //            └─────┘                                      │
    //               ▲                             Flexcomm n clock select
    //               │                                 FCnFCLKSEL[2:0]
    //       FRG clock select n
    //        FRGnCLKSEL[2:0]
    fn post_enable_config(&self, clocks: &Clocks) -> (r: Result<u32, ClockError>) {
        flexcomm_clock_freq(self.fc_clk_sel, self.frg_clk_sel, self.mult, clocks, &self.powered)
    }

    fn register_writes(&self) -> (r: Vec<ClockWrite>) {
        let i = self.instance.index();
        flexcomm_write_list(
            self.fc_clk_sel,
            self.frg_clk_sel,
            self.mult,
            ClockSelectReg::FlexcommFrg(i),
            FrgCtlReg::Flexcomm(i),
            ClockSelectReg::FlexcommFclk(i),
        )
    }
}

impl SPConfHelper for FlexcommConfig14 {
    open spec fn post_enable_spec(&self, clocks: Clocks) -> Result<u32, ClockError> {
        flexcomm_clock(self.fc_clk_sel, self.frg_clk_sel, self.mult, clocks, self.powered)
    }

    open spec fn register_writes_spec(&self) -> Seq<ClockWrite> {
        flexcomm_writes(
            self.fc_clk_sel,
            self.frg_clk_sel,
            self.mult,
            ClockSelectReg::Frg14,
            FrgCtlReg::Frg14,
            ClockSelectReg::Fc14Fclk,
        )
    }

    /// Clock of the high speed SPI (Flexcomm 14): the FRG14 selector feeds
    /// the FRG, whose output is one input of FC14FCLKSEL.
    fn post_enable_config(&self, clocks: &Clocks) -> (r: Result<u32, ClockError>) {
        flexcomm_clock_freq(self.fc_clk_sel, self.frg_clk_sel, self.mult, clocks, &self.powered)
    }

    fn register_writes(&self) -> (r: Vec<ClockWrite>) {
        flexcomm_write_list(
            self.fc_clk_sel,
            self.frg_clk_sel,
            self.mult,
            ClockSelectReg::Frg14,
            FrgCtlReg::Frg14,
            ClockSelectReg::Fc14Fclk,
        )
    }
}

impl SPConfHelper for FlexcommConfig15 {
    open spec fn post_enable_spec(&self, clocks: Clocks) -> Result<u32, ClockError> {
        flexcomm_clock(self.fc_clk_sel, self.frg_clk_sel, self.mult, clocks, self.powered)
    }

    open spec fn register_writes_spec(&self) -> Seq<ClockWrite> {
        flexcomm_writes(
            self.fc_clk_sel,
            self.frg_clk_sel,
            self.mult,
            ClockSelectReg::Frg15,
            FrgCtlReg::Frg15,
            ClockSelectReg::Fc15Fclk,
        )
    }

    /// Clock of the PMIC I2C (Flexcomm 15): the FRG15 selector feeds the
    /// FRG, whose output is one input of FC15FCLKSEL.
    fn post_enable_config(&self, clocks: &Clocks) -> (r: Result<u32, ClockError>) {
        flexcomm_clock_freq(self.fc_clk_sel, self.frg_clk_sel, self.mult, clocks, &self.powered)
    }

    fn register_writes(&self) -> (r: Vec<ClockWrite>) {
        flexcomm_write_list(
            self.fc_clk_sel,
            self.frg_clk_sel,
            self.mult,
            ClockSelectReg::Frg15,
            FrgCtlReg::Frg15,
            ClockSelectReg::Fc15Fclk,
        )
    }
}

/// Whether the ADC takes its clock through ADC0FCLKSEL0.
pub open spec fn adc_uses_sel0(sel1: AdcSel1) -> bool {
    match sel1 {
        AdcSel1::Adc0fclksel0MuxOut => true,
        _ => false,
    }
}

impl SPConfHelper for AdcConfig {
    open spec fn post_enable_spec(&self, clocks: Clocks) -> Result<u32, ClockError> {
        match adc_source(*self, clocks) {
            Ok(f) => Ok(divided(f, self.div)),
            Err(e) => Err(e),
        }
    }

    open spec fn register_writes_spec(&self) -> Seq<ClockWrite> {
        seq![
            ClockWrite::Select(
                ClockSelectReg::Adc0Sel0,
                if adc_uses_sel0(self.sel1) {
                    adc_sel0_bits(self.sel0)
                } else {
                    SEL_NONE
                },
            ),
            ClockWrite::Select(ClockSelectReg::Adc0Sel1, adc_sel1_bits(self.sel1)),
            ClockWrite::Divider(DividerReg::Adc0, self.div),
        ]
    }

    /// ```text
    ///    16m_irc ┌─────┐                      ┌─────┐
    /// ──────────▶│000  │    ┌────────────────▶│000  │
    ///     clk_in │     │    │     main_pll_clk│     │
    /// ──────────▶│001  │    │      ──────────▶│001  │        ┌─────────┐
    ///   1m_lposc │     │    │     aux0_pll_clk│     │        │ADC Clock│ to ADC
    /// ──────────▶│010  │────┘      ──────────▶│010  │───────▶│Divider  │───────▶
    /// 48/60m_irc │     │          aux1_pll_clk│     │        └─────────┘  fclk
    /// ──────────▶│011  │           ──────────▶│011  │             ▲
    ///    "none"  │     │              "none"  │     │             │
    /// ──────────▶│111  │           ──────────▶│111  │       ADC0FCLKDIV
    ///            └─────┘                      └─────┘
    ///               ▲                            ▲
    ///               │                            │
    ///      ADC clock select 0           ADC clock select 1
    ///       ADC0FCLKSEL0[2:0]            ADC0FCLKSEL1[2:0]
    /// ```
    fn post_enable_config(&self, clocks: &Clocks) -> (r: Result<u32, ClockError>) {
        let src = match self.sel1 {
            AdcSel1::Adc0fclksel0MuxOut => match self.sel0 {
                AdcSel0::SfroClk => clocks.ensure_16mhz_sfro_active(&self.powered),
                AdcSel0::XtalinClk => clocks.ensure_clk_in_active(&self.powered),
                AdcSel0::Lposc => clocks.ensure_1mhz_lposc_active(&self.powered),
                AdcSel0::FfroClk => clocks.ensure_48_60mhz_ffro_active(&self.powered),
                AdcSel0::NoClock => Ok(0),
            },
            AdcSel1::Syspll0MainClk => clocks.ensure_main_pll_clk_active(&self.powered),
            AdcSel1::Syspll0Aux0PllClock => clocks.ensure_aux0_pll_clk_active(&self.powered),
            AdcSel1::Syspll0Aux1PllClock => clocks.ensure_aux1_pll_clk_active(&self.powered),
            AdcSel1::NoClock => Ok(0),
        };
        match src {
            Ok(f) => Ok(divide(f, self.div)),
            Err(e) => Err(e),
        }
    }

    /// The selector that the ADC does not use is parked on "none".
    fn register_writes(&self) -> (r: Vec<ClockWrite>) {
        let sel0: u8 = match self.sel1 {
            AdcSel1::Adc0fclksel0MuxOut => self.sel0.into_pac(),
            _ => adc_sel0_values().4,
        };
        let mut v: Vec<ClockWrite> = Vec::new();
        v.push(ClockWrite::Select(ClockSelectReg::Adc0Sel0, sel0));
        v.push(ClockWrite::Select(ClockSelectReg::Adc0Sel1, self.sel1.into_pac()));
        v.push(ClockWrite::Divider(DividerReg::Adc0, self.div));
        proof {
            assert(v@ =~= self.register_writes_spec());
        }
        v
    }
}

/// Whether the SCTimer has a source selected.
pub open spec fn sct_is_clocked(source: SCTClockSource) -> bool {
    match source {
        SCTClockSource::NoClock => false,
        _ => true,
    }
}

impl SPConfHelper for Sct0Config {
    open spec fn post_enable_spec(&self, clocks: Clocks) -> Result<u32, ClockError> {
        match sct_source(*self, clocks) {
            Ok(f) => Ok(
                if sct_is_clocked(self.source) {
                    divided(f, self.div)
                } else {
                    f
                },
            ),
            Err(e) => Err(e),
        }
    }

    open spec fn register_writes_spec(&self) -> Seq<ClockWrite> {
        if sct_is_clocked(self.source) {
            seq![
                ClockWrite::Select(ClockSelectReg::Sct, sct_sel_bits(self.source)),
                ClockWrite::Divider(DividerReg::Sct, self.div),
            ]
        } else {
            seq![ClockWrite::Select(ClockSelectReg::Sct, SEL_NONE)]
        }
    }

    /// ```text
    ///     main clk ┌─────┐
    /// ────────────▶│000  │
    /// main_pll_clk │     │
    /// ────────────▶│001  │
    /// aux0_pll_clk │     │
    /// ────────────▶│010  │        ┌─────────────┐
    ///   48/60m_irc │     │        │SCTimer/PWM  │ to SCTimer/PWM
    /// ────────────▶│011  │───────▶│Clock Divider│───────────────▶
    /// aux1_pll_clk │     │        └─────────────┘  input clock 7
    /// ────────────▶│100  │               ▲
    ///audio_pll_clk │     │               │
    /// ────────────▶│101  │           SCTFCLKDIV
    ///       "none" │     │
    /// ────────────▶│111  │
    ///              └─────┘
    ///                 ▲
    ///                 │
    ///     SCTimer/PWM clock select
    ///         SCTFCLKSEL[2:0]
    /// ```
    fn post_enable_config(&self, clocks: &Clocks) -> (r: Result<u32, ClockError>) {
        let src = match self.source {
            // main_clk is ALWAYS enabled.
            SCTClockSource::Main => Ok(clocks.main_clk),
            SCTClockSource::MainPLL => clocks.ensure_main_pll_clk_active(&self.powered),
            SCTClockSource::Aux0Pll => clocks.ensure_aux0_pll_clk_active(&self.powered),
            SCTClockSource::Ffro48_60Mhz => clocks.ensure_48_60mhz_ffro_active(&self.powered),
            SCTClockSource::Aux1Pll => clocks.ensure_aux1_pll_clk_active(&self.powered),
            SCTClockSource::AudioPLL => {
                return Err(ClockError::ProgError(ProgErrorKind::AudioPllNotSupported));
            },
            SCTClockSource::NoClock => Ok(0),
        };
        match src {
            Ok(f) => match self.source {
                SCTClockSource::NoClock => Ok(f),
                _ => Ok(divide(f, self.div)),
            },
            Err(e) => Err(e),
        }
    }

    /// The divider is only programmed when a source is selected.
    fn register_writes(&self) -> (r: Vec<ClockWrite>) {
        let mut v: Vec<ClockWrite> = Vec::new();
        match self.source {
            SCTClockSource::NoClock => {
                v.push(ClockWrite::Select(ClockSelectReg::Sct, sct_sel_values().6));
            },
            _ => {
                let values = sct_sel_values();
                let sel: u8 = match self.source {
                    SCTClockSource::Main => values.0,
                    SCTClockSource::MainPLL => values.1,
                    SCTClockSource::Aux0Pll => values.2,
                    SCTClockSource::Ffro48_60Mhz => values.3,
                    SCTClockSource::Aux1Pll => values.4,
                    SCTClockSource::AudioPLL => values.5,
                    SCTClockSource::NoClock => values.6,
                };
                v.push(ClockWrite::Select(ClockSelectReg::Sct, sel));
                v.push(ClockWrite::Divider(DividerReg::Sct, self.div));
            },
        }
        proof {
            assert(v@ =~= self.register_writes_spec());
        }
        v
    }
}

impl SPConfHelper for WdtConfig {
    open spec fn post_enable_spec(&self, clocks: Clocks) -> Result<u32, ClockError> {
        match self.source {
            WdtClkSel::LpOsc1m => ensure_active(clocks.lposc_1mhz, ClockId::Lposc1Mhz, self.powered),
            WdtClkSel::NoClock => Ok(0),
        }
    }

    open spec fn register_writes_spec(&self) -> Seq<ClockWrite> {
        let reg = match self.instance {
            WdtInstance::Wwdt0 => ClockSelectReg::Wdt0,
            WdtInstance::Wwdt1 => ClockSelectReg::Wdt1,
        };
        let sel: u8 = match self.source {
            WdtClkSel::LpOsc1m => 0,
            WdtClkSel::NoClock => SEL_NONE,
        };
        seq![ClockWrite::Select(reg, sel)]
    }

    /// ```text
    ///   1m_lposc ┌─────┐
    /// ──────────▶│000  │ to WDTn
    ///     "none" │     │────────▶
    /// ──────────▶│111  │   fclk
    ///            └─────┘
    ///               ▲
    ///               │
    ///       WDTn Clock Select
    ///       WDTnFCLKSEL[2:0]
    /// ```
    fn post_enable_config(&self, clocks: &Clocks) -> (r: Result<u32, ClockError>) {
        match self.source {
            WdtClkSel::LpOsc1m => clocks.ensure_1mhz_lposc_active(&self.powered),
            WdtClkSel::NoClock => Ok(0),
        }
    }

    fn register_writes(&self) -> (r: Vec<ClockWrite>) {
        let (reg, values) = match self.instance {
            WdtInstance::Wwdt0 => (ClockSelectReg::Wdt0, wdt0_sel_values()),
            WdtInstance::Wwdt1 => (ClockSelectReg::Wdt1, wdt1_sel_values()),
        };
        let sel: u8 = match self.source {
            WdtClkSel::LpOsc1m => values.0,
            WdtClkSel::NoClock => values.1,
        };
        let mut v: Vec<ClockWrite> = Vec::new();
        v.push(ClockWrite::Select(reg, sel));
        proof {
            assert(v@ =~= self.register_writes_spec());
        }
        v
    }
}

impl SPConfHelper for CtimerConfig {
    open spec fn post_enable_spec(&self, clocks: Clocks) -> Result<u32, ClockError> {
        match self.source {
            CTimerSel::MainClk => Ok(clocks.main_clk),
            CTimerSel::SfroClk => ensure_active(clocks.sfro_16mhz, ClockId::Sfro16Mhz, self.powered),
            CTimerSel::FfroClk => ensure_active(
                clocks.ffro_48_60mhz,
                ClockId::Ffro48_60Mhz,
                self.powered,
            ),
            CTimerSel::AudioPllClk => Err(ClockError::ProgError(ProgErrorKind::NotImplemented)),
            CTimerSel::MasterClk => Err(ClockError::ProgError(ProgErrorKind::NotImplemented)),
            CTimerSel::Lposc => ensure_active(clocks.lposc_1mhz, ClockId::Lposc1Mhz, self.powered),
            CTimerSel::NoClock => Ok(0),
        }
    }

    open spec fn register_writes_spec(&self) -> Seq<ClockWrite> {
        seq![
            ClockWrite::Select(
                ClockSelectReg::CTimer(ctimer_index(self.instance)),
                ctimer_sel_bits(self.source),
            ),
        ]
    }

    /// ```text
    ///     main clk ┌─────┐
    /// ────────────▶│000  │
    ///      16m_irc │     │
    /// ────────────▶│001  │
    ///   48/60m_irc │     │ function clock of
    /// ────────────▶│010  │     CTIMER n
    ///audio_pll_clk │     │──────────────────▶
    /// ────────────▶│011  │ CTIMERs 0 thru 4
    ///      mclk_in │     │
    /// ────────────▶│100  │
    ///       "none" │     │
    /// ────────────▶│111  │
    ///              └─────┘
    ///                 ▲
    ///                 │
    ///       TIMER n clock select
    ///       CT32BITnFCLKSEL[2:0]
    /// ```
    fn post_enable_config(&self, clocks: &Clocks) -> (r: Result<u32, ClockError>) {
        match self.source {
            CTimerSel::MainClk => Ok(clocks.main_clk),
            CTimerSel::SfroClk => clocks.ensure_16mhz_sfro_active(&self.powered),
            CTimerSel::FfroClk => clocks.ensure_48_60mhz_ffro_active(&self.powered),
            CTimerSel::AudioPllClk => Err(ClockError::ProgError(ProgErrorKind::NotImplemented)),
            CTimerSel::MasterClk => Err(ClockError::ProgError(ProgErrorKind::NotImplemented)),
            CTimerSel::Lposc => clocks.ensure_1mhz_lposc_active(&self.powered),
            CTimerSel::NoClock => Ok(0),
        }
    }

    fn register_writes(&self) -> (r: Vec<ClockWrite>) {
        let mut v: Vec<ClockWrite> = Vec::new();
        v.push(
            ClockWrite::Select(ClockSelectReg::CTimer(self.instance.index()), self.source.into_pac()),
        );
        proof {
            assert(v@ =~= self.register_writes_spec());
        }
        v
    }
}

impl SPConfHelper for NoConfig {
    open spec fn post_enable_spec(&self, clocks: Clocks) -> Result<u32, ClockError> {
        Ok(0)
    }

    open spec fn register_writes_spec(&self) -> Seq<ClockWrite> {
        Seq::empty()
    }

    /// "NoConfig" peripherals do not track their upstream source (often the
    /// AHB/APB clocks), so no frequency is reported.
    fn post_enable_config(&self, _clocks: &Clocks) -> (r: Result<u32, ClockError>) {
        Ok(0)
    }

    fn register_writes(&self) -> (r: Vec<ClockWrite>) {
        Vec::new()
    }
}

/// SEL field value of OSEVENTFCLKSEL.
pub open spec fn os_event_sel_bits(select: OsEventClockSelect) -> u8 {
    match select {
        OsEventClockSelect::Lposc => 0,
        OsEventClockSelect::Rtc32khzClk => 1,
        OsEventClockSelect::TealFreeRunningClk => 2,
        OsEventClockSelect::NoClock => 7,
    }
}

impl SPConfHelper for OsEventConfig {
    open spec fn post_enable_spec(&self, clocks: Clocks) -> Result<u32, ClockError> {
        match self.select {
            OsEventClockSelect::Lposc => ensure_active(
                clocks.lposc_1mhz,
                ClockId::Lposc1Mhz,
                self.powered,
            ),
            OsEventClockSelect::Rtc32khzClk => ensure_active(
                clocks.clk_32khz,
                ClockId::Clk32Khz,
                self.powered,
            ),
            OsEventClockSelect::TealFreeRunningClk => Ok(clocks.sys_cpu_ahb_clk),
            OsEventClockSelect::NoClock => Ok(0),
        }
    }

    open spec fn register_writes_spec(&self) -> Seq<ClockWrite> {
        seq![ClockWrite::Select(ClockSelectReg::OsEvent, os_event_sel_bits(self.select))]
    }

    /// ```text
    ///     1m_lposc ┌─────┐
    /// ────────────▶│000  │
    ///      32k_clk │     │
    /// ────────────▶│001  │ ostimer_clk
    ///         hclk │     │────────────▶
    /// ────────────▶│010  │
    ///       "none" │     │
    /// ────────────▶│111  │
    ///              └─────┘
    ///                 ▲
    ///                 │
    ///      OS Timer Clock Select
    ///       OSEVENTTFCLKSEL[2:0]
    /// ```
    fn post_enable_config(&self, clocks: &Clocks) -> (r: Result<u32, ClockError>) {
        match self.select {
            OsEventClockSelect::Lposc => clocks.ensure_1mhz_lposc_active(&self.powered),
            OsEventClockSelect::Rtc32khzClk => clocks.ensure_32k_clk_active(&self.powered),
            OsEventClockSelect::TealFreeRunningClk => Ok(clocks.sys_cpu_ahb_clk),
            OsEventClockSelect::NoClock => Ok(0),
        }
    }

    fn register_writes(&self) -> (r: Vec<ClockWrite>) {
        let values = os_event_sel_values();
        let sel: u8 = match self.select {
            OsEventClockSelect::Lposc => values.0,
            OsEventClockSelect::Rtc32khzClk => values.1,
            OsEventClockSelect::TealFreeRunningClk => values.2,
            OsEventClockSelect::NoClock => values.3,
        };
        let mut v: Vec<ClockWrite> = Vec::new();
        v.push(ClockWrite::Select(ClockSelectReg::OsEvent, sel));
        proof {
            assert(v@ =~= self.register_writes_spec());
        }
        v
    }
}

impl SPConfHelper for UnimplementedConfig {
    open spec fn post_enable_spec(&self, clocks: Clocks) -> Result<u32, ClockError> {
        Err(ClockError::ProgError(ProgErrorKind::PeripheralNotImplemented))
    }

    open spec fn register_writes_spec(&self) -> Seq<ClockWrite> {
        Seq::empty()
    }

    fn post_enable_config(&self, _clocks: &Clocks) -> (r: Result<u32, ClockError>) {
        Err(ClockError::ProgError(ProgErrorKind::PeripheralNotImplemented))
    }

    fn register_writes(&self) -> (r: Vec<ClockWrite>) {
        Vec::new()
    }
}


/// The fractional rate generator never speeds a clock up, passes it through
/// unchanged when MULT is 0, and slows it down further the larger MULT is.
pub proof fn lemma_frg_output_bounds(freq: u32, mult: u8, larger_mult: u8)
    requires
        mult <= larger_mult,
    ensures
        frg_output(freq, mult) <= freq,
        mult == 0 ==> frg_output(freq, mult) == freq,
        frg_output(freq, larger_mult) <= frg_output(freq, mult),
        frg_output(freq, mult) * (mult + 256) <= freq * 256 < (frg_output(freq, mult) + 1) * (mult
            + 256),
{
    let f = freq as int * 256;
    let d1 = mult as int + 256;
    let d2 = larger_mult as int + 256;
    assert(f / d1 <= freq) by (nonlinear_arith)
        requires
            f == freq * 256,
            d1 >= 256,
    ;
    vstd::arithmetic::div_mod::lemma_fundamental_div_mod(f, d1);
    let q = f / d1;
    assert(frg_output(freq, mult) == q);
    assert(q * d1 <= f < (q + 1) * d1) by (nonlinear_arith)
        requires
            f == d1 * q + f % d1,
            0 <= f % d1 < d1,
    ;
    assert(f / d2 <= f / d1) by (nonlinear_arith)
        requires
            f >= 0,
            256 <= d1 <= d2,
    ;
    if mult == 0 {
        assert(f / 256 == freq);
    }
}

/// A peripheral clocked through an integer divider never runs faster than
/// the divider's input.
pub proof fn lemma_divided_bounds(freq: u32, div: u8)
    ensures
        divided(freq, div) <= freq,
        div == 0 ==> divided(freq, div) == freq,
        divided(freq, div) * (div + 1) <= freq < (divided(freq, div) + 1) * (div + 1),
{
    assert(freq as int / (1 + div as int) <= freq) by (nonlinear_arith)
        requires
            1 + div as int >= 1,
    ;
    let d = 1 + div as int;
    vstd::arithmetic::div_mod::lemma_fundamental_div_mod(freq as int, d);
    let q = freq as int / d;
    assert(divided(freq, div) == q);
    let fi = freq as int;
    assert(q * d <= fi < (q + 1) * d) by (nonlinear_arith)
        requires
            fi == d * q + fi % d,
            0 <= fi % d < d,
    ;
    if div == 0 {
        assert(freq as int / 1 == freq);
    }
}

/// Peripherals without clock configuration cannot fail: whatever the clock
/// tree, they report success (and no frequency).
pub proof fn lemma_no_config_never_fails(cfg: NoConfig, clocks: Clocks)
    ensures
        cfg.post_enable_spec(clocks) == Ok::<u32, ClockError>(0),
{
}

/// The main clock is always enabled: a peripheral fed by it never fails,
/// whatever the state of the optional sources.
pub proof fn lemma_main_clock_always_available(
    fc: FlexcommConfig,
    ct: CtimerConfig,
    sct: Sct0Config,
    clocks: Clocks,
)
    requires
        uses_frg(fc.fc_clk_sel),
        fc.frg_clk_sel == FlexcommFrgSel::MainClk,
        ct.source == CTimerSel::MainClk,
        sct.source == SCTClockSource::Main,
    ensures
        fc.post_enable_spec(clocks) == Ok::<u32, ClockError>(frg_output(clocks.main_clk, fc.mult)),
        ct.post_enable_spec(clocks) == Ok::<u32, ClockError>(clocks.main_clk),
        sct.post_enable_spec(clocks) == Ok::<u32, ClockError>(divided(clocks.main_clk, sct.div)),
{
}

/// Selecting no clock never fails and reports 0 Hz, whatever the clock tree
/// and power requirement.
pub proof fn lemma_no_clock_selected(
    fc: FlexcommConfig,
    ct: CtimerConfig,
    wdt: WdtConfig,
    os: OsEventConfig,
    sct: Sct0Config,
    clocks: Clocks,
)
    requires
        fc.fc_clk_sel == FlexcommFclkSel::NoClock,
        ct.source == CTimerSel::NoClock,
        wdt.source == WdtClkSel::NoClock,
        os.select == OsEventClockSelect::NoClock,
        sct.source == SCTClockSource::NoClock,
    ensures
        fc.post_enable_spec(clocks) == Ok::<u32, ClockError>(0),
        ct.post_enable_spec(clocks) == Ok::<u32, ClockError>(0),
        wdt.post_enable_spec(clocks) == Ok::<u32, ClockError>(0),
        os.post_enable_spec(clocks) == Ok::<u32, ClockError>(0),
        sct.post_enable_spec(clocks) == Ok::<u32, ClockError>(0),
{
}

/// A CTimer runs at the frequency of the clock that the SEL value it writes
/// to its CT32BITFCLKSEL selects: 0 the main clock, 1 the 16 MHz SFRO, 2 the
/// 48/60 MHz FFRO, 5 the 1 MHz LPOSC, 7 no clock (0 Hz); 3 (audio PLL) and 4
/// (MCLK in) are refused. An oscillator is checked at the configuration's
/// power requirement, so the report is its frequency or why it cannot serve.
/// The report depends on the selected clock alone: clock trees that agree on
/// it give the same report.
pub proof fn lemma_ctimer_runs_on_selected_clock(cfg: CtimerConfig, clocks: Clocks, other: Clocks)
    ensures
        cfg.register_writes_spec().len() == 1,
        cfg.register_writes_spec()[0] matches ClockWrite::Select(reg, sel) && reg
            == ClockSelectReg::CTimer(ctimer_index(cfg.instance)) && {
            let r = cfg.post_enable_spec(clocks);
            &&& sel == 0 ==> r == Ok::<u32, ClockError>(clocks.main_clk) && (other.main_clk
                == clocks.main_clk ==> cfg.post_enable_spec(other) == r)
            &&& sel == 1 ==> r == ensure_active(clocks.sfro_16mhz, ClockId::Sfro16Mhz, cfg.powered)
                && (other.sfro_16mhz == clocks.sfro_16mhz ==> cfg.post_enable_spec(other) == r)
            &&& sel == 2 ==> r == ensure_active(
                clocks.ffro_48_60mhz,
                ClockId::Ffro48_60Mhz,
                cfg.powered,
            ) && (other.ffro_48_60mhz == clocks.ffro_48_60mhz ==> cfg.post_enable_spec(other) == r)
            &&& (sel == 3 || sel == 4) ==> r == Err::<u32, ClockError>(
                ClockError::ProgError(ProgErrorKind::NotImplemented),
            ) && cfg.post_enable_spec(other) == r
            &&& sel == 5 ==> r == ensure_active(clocks.lposc_1mhz, ClockId::Lposc1Mhz, cfg.powered)
                && (other.lposc_1mhz == clocks.lposc_1mhz ==> cfg.post_enable_spec(other) == r)
            &&& sel == 7 ==> r == Ok::<u32, ClockError>(0) && cfg.post_enable_spec(other) == r
            &&& sel <= 5 || sel == 7
        },
{
}


/// A source's frequency, or why it cannot serve, passed through a fractional
/// rate generator with the given MULT: `freq * 256 / (256 + mult)`, rounded
/// down.
pub open spec fn through_frg(src: Result<u32, ClockError>, mult: u8) -> Result<u32, ClockError> {
    match src {
        Ok(f) => Ok(((f as int * 256) / (256 + mult as int)) as u32),
        Err(e) => Err(e),
    }
}

/// A source's frequency, or why it cannot serve, passed through an integer
/// divider whose DIV field is `div`: `freq / (div + 1)`, rounded down.
pub open spec fn through_divider(src: Result<u32, ClockError>, div: u8) -> Result<u32, ClockError> {
    match src {
        Ok(f) => Ok((f as int / (div as int + 1)) as u32),
        Err(e) => Err(e),
    }
}

/// What a Flexcomm-style clock block does, in terms of the SEL values it
/// writes: the last write sets its function clock selector `fclk_reg`, where
/// 0 picks the SFRO, 1 the FFRO, 4 its fractional rate generator, 7 no
/// clock, while 2 (audio PLL) and 3 (MCLK in) are refused. Only when the FRG
/// is picked are its selector `frg_reg` and its control `ctl_reg` written
/// first: the selector picks the FRG's input (0 main clock, 1 FRG PLL,
/// 2 SFRO, 3 FFRO, 7 none), the control gets MULT `mult` and DIV 0xFF, and
/// the report `r` is that input through the FRG. An oscillator is checked at
/// the power requirement `p`.
pub open spec fn flexcomm_block_runs_as_selected(
    w: Seq<ClockWrite>,
    r: Result<u32, ClockError>,
    clocks: Clocks,
    mult: u8,
    p: PoweredClock,
    frg_reg: ClockSelectReg,
    ctl_reg: FrgCtlReg,
    fclk_reg: ClockSelectReg,
) -> bool {
    &&& w.len() >= 1
    &&& w.last() matches ClockWrite::Select(reg, sel) && reg == fclk_reg && {
        &&& sel == 0 ==> w.len() == 1 && r == ensure_active(clocks.sfro_16mhz, ClockId::Sfro16Mhz, p)
        &&& sel == 1 ==> w.len() == 1 && r == ensure_active(
            clocks.ffro_48_60mhz,
            ClockId::Ffro48_60Mhz,
            p,
        )
        &&& (sel == 2 || sel == 3) ==> w.len() == 1 && r == Err::<u32, ClockError>(
            ClockError::ProgError(ProgErrorKind::NotImplemented),
        )
        &&& sel == 7 ==> w.len() == 1 && r == Ok::<u32, ClockError>(0)
        &&& sel <= 4 || sel == 7
        &&& sel == 4 ==> w.len() == 3 && w[1] == ClockWrite::FrgCtl(ctl_reg, mult, 0xFF) && (
        w[0] matches ClockWrite::Select(fr, fs) && fr == frg_reg && {
            &&& fs == 0 ==> r == through_frg(Ok(clocks.main_clk), mult)
            &&& fs == 1 ==> r == through_frg(ensure_active(clocks.frg_pll, ClockId::FrgPll, p), mult)
            &&& fs == 2 ==> r == through_frg(
                ensure_active(clocks.sfro_16mhz, ClockId::Sfro16Mhz, p),
                mult,
            )
            &&& fs == 3 ==> r == through_frg(
                ensure_active(clocks.ffro_48_60mhz, ClockId::Ffro48_60Mhz, p),
                mult,
            )
            &&& fs == 7 ==> r == Ok::<u32, ClockError>(0)
            &&& fs <= 3 || fs == 7
        })
    }
}

/// Flexcomm n, 14 and 15 run on the clock their writes select, each on its
/// own registers (FRGnCLKSEL, FRGnCTL, FCnFCLKSEL; FRG14CLKSEL, FRG14CTL,
/// FC14FCLKSEL; FRG15CLKSEL, FRG15CTL, FC15FCLKSEL).
pub proof fn lemma_flexcomm_runs_on_selected_clock(
    cfg: FlexcommConfig,
    cfg14: FlexcommConfig14,
    cfg15: FlexcommConfig15,
    clocks: Clocks,
)
    ensures
        flexcomm_block_runs_as_selected(
            cfg.register_writes_spec(),
            cfg.post_enable_spec(clocks),
            clocks,
            cfg.mult,
            cfg.powered,
            ClockSelectReg::FlexcommFrg(flexcomm_index(cfg.instance)),
            FrgCtlReg::Flexcomm(flexcomm_index(cfg.instance)),
            ClockSelectReg::FlexcommFclk(flexcomm_index(cfg.instance)),
        ),
        flexcomm_block_runs_as_selected(
            cfg14.register_writes_spec(),
            cfg14.post_enable_spec(clocks),
            clocks,
            cfg14.mult,
            cfg14.powered,
            ClockSelectReg::Frg14,
            FrgCtlReg::Frg14,
            ClockSelectReg::Fc14Fclk,
        ),
        flexcomm_block_runs_as_selected(
            cfg15.register_writes_spec(),
            cfg15.post_enable_spec(clocks),
            clocks,
            cfg15.mult,
            cfg15.powered,
            ClockSelectReg::Frg15,
            FrgCtlReg::Frg15,
            ClockSelectReg::Fc15Fclk,
        ),
{
}

/// The ADC clock comes from the source that the two selectors written pick,
/// through the divider written last with the configuration's DIV:
/// ADC0FCLKSEL1 = 0 takes ADC0FCLKSEL0's choice (0 SFRO, 1 clk_in, 2 LPOSC,
/// 3 FFRO, 7 none), 1 the main PLL, 3 the AUX0 PLL, 5 the AUX1 PLL, 7 none;
/// when the first stage is not used its selector is written 7 (none).
pub proof fn lemma_adc_runs_on_selected_clock(cfg: AdcConfig, clocks: Clocks)
    ensures
        ({
            let w = cfg.register_writes_spec();
            let r = cfg.post_enable_spec(clocks);
            let p = cfg.powered;
            &&& w.len() == 3
            &&& w[2] == ClockWrite::Divider(DividerReg::Adc0, cfg.div)
            &&& w[0] matches ClockWrite::Select(reg0, s0) && reg0 == ClockSelectReg::Adc0Sel0
                && (w[1] matches ClockWrite::Select(reg1, s1) && reg1 == ClockSelectReg::Adc0Sel1 && {
                &&& s1 == 0 ==> {
                    &&& s0 == 0 ==> r == through_divider(
                        ensure_active(clocks.sfro_16mhz, ClockId::Sfro16Mhz, p),
                        cfg.div,
                    )
                    &&& s0 == 1 ==> r == through_divider(
                        ensure_active(clocks.clk_in, ClockId::ClkIn, p),
                        cfg.div,
                    )
                    &&& s0 == 2 ==> r == through_divider(
                        ensure_active(clocks.lposc_1mhz, ClockId::Lposc1Mhz, p),
                        cfg.div,
                    )
                    &&& s0 == 3 ==> r == through_divider(
                        ensure_active(clocks.ffro_48_60mhz, ClockId::Ffro48_60Mhz, p),
                        cfg.div,
                    )
                    &&& s0 == 7 ==> r == Ok::<u32, ClockError>(0)
                    &&& s0 <= 3 || s0 == 7
                }
                &&& s1 != 0 ==> w[0] == ClockWrite::Select(ClockSelectReg::Adc0Sel0, 7)
                &&& s1 == 1 ==> r == through_divider(
                    ensure_active(clocks.main_pll, ClockId::MainPll, p),
                    cfg.div,
                )
                &&& s1 == 3 ==> r == through_divider(
                    ensure_active(clocks.aux0_pll, ClockId::Aux0Pll, p),
                    cfg.div,
                )
                &&& s1 == 5 ==> r == through_divider(
                    ensure_active(clocks.aux1_pll, ClockId::Aux1Pll, p),
                    cfg.div,
                )
                &&& s1 == 7 ==> r == Ok::<u32, ClockError>(0)
                &&& s1 == 0 || s1 == 1 || s1 == 3 || s1 == 5 || s1 == 7
            })
        }),
{
}

/// The SCTimer clock comes from the source its SCTFCLKSEL value selects
/// (0 main clock, 1 main PLL, 2 AUX0 PLL, 3 FFRO, 4 AUX1 PLL; 5, the audio
/// PLL, is refused) through its divider, which is written with the
/// configuration's DIV; with 7 (none) no divider is written and it reports
/// 0 Hz.
pub proof fn lemma_sct_runs_on_selected_clock(cfg: Sct0Config, clocks: Clocks)
    ensures
        ({
            let w = cfg.register_writes_spec();
            let r = cfg.post_enable_spec(clocks);
            let p = cfg.powered;
            &&& w.len() >= 1
            &&& w[0] matches ClockWrite::Select(reg, s) && reg == ClockSelectReg::Sct && {
                &&& s == 7 ==> w.len() == 1 && r == Ok::<u32, ClockError>(0)
                &&& s != 7 ==> w.len() == 2 && w[1] == ClockWrite::Divider(DividerReg::Sct, cfg.div)
                &&& s == 0 ==> r == through_divider(Ok(clocks.main_clk), cfg.div)
                &&& s == 1 ==> r == through_divider(
                    ensure_active(clocks.main_pll, ClockId::MainPll, p),
                    cfg.div,
                )
                &&& s == 2 ==> r == through_divider(
                    ensure_active(clocks.aux0_pll, ClockId::Aux0Pll, p),
                    cfg.div,
                )
                &&& s == 3 ==> r == through_divider(
                    ensure_active(clocks.ffro_48_60mhz, ClockId::Ffro48_60Mhz, p),
                    cfg.div,
                )
                &&& s == 4 ==> r == through_divider(
                    ensure_active(clocks.aux1_pll, ClockId::Aux1Pll, p),
                    cfg.div,
                )
                &&& s == 5 ==> r == Err::<u32, ClockError>(
                    ClockError::ProgError(ProgErrorKind::AudioPllNotSupported),
                )
                &&& s <= 5 || s == 7
            }
        }),
{
}

/// A watchdog runs on the LPOSC when its selector is written 0 and has no
/// clock (0 Hz) when it is written 7; the selector written is that of its
/// own instance.
pub proof fn lemma_wdt_runs_on_selected_clock(cfg: WdtConfig, clocks: Clocks)
    ensures
        ({
            let w = cfg.register_writes_spec();
            let r = cfg.post_enable_spec(clocks);
            &&& w.len() == 1
            &&& w[0] matches ClockWrite::Select(reg, s) && reg == (match cfg.instance {
                WdtInstance::Wwdt0 => ClockSelectReg::Wdt0,
                WdtInstance::Wwdt1 => ClockSelectReg::Wdt1,
            }) && {
                &&& s == 0 ==> r == ensure_active(clocks.lposc_1mhz, ClockId::Lposc1Mhz, cfg.powered)
                &&& s == 7 ==> r == Ok::<u32, ClockError>(0)
                &&& s == 0 || s == 7
            }
        }),
{
}

/// The OS event timer runs on the clock its OSEVENTFCLKSEL value selects:
/// 0 the LPOSC, 1 the 32 kHz clock, 2 the system CPU/AHB clock, 7 none.
pub proof fn lemma_os_event_runs_on_selected_clock(cfg: OsEventConfig, clocks: Clocks)
    ensures
        ({
            let w = cfg.register_writes_spec();
            let r = cfg.post_enable_spec(clocks);
            &&& w.len() == 1
            &&& w[0] matches ClockWrite::Select(reg, s) && reg == ClockSelectReg::OsEvent && {
                &&& s == 0 ==> r == ensure_active(clocks.lposc_1mhz, ClockId::Lposc1Mhz, cfg.powered)
                &&& s == 1 ==> r == ensure_active(clocks.clk_32khz, ClockId::Clk32Khz, cfg.powered)
                &&& s == 2 ==> r == Ok::<u32, ClockError>(clocks.sys_cpu_ahb_clk)
                &&& s == 7 ==> r == Ok::<u32, ClockError>(0)
                &&& s <= 2 || s == 7
            }
        }),
{
}

} // verus!

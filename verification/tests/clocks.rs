use embassy_imxrt::clocks::periph_helpers::{
    AdcConfig, AdcSel0, AdcSel1, CTimerInstance, CTimerSel, ClockSelectReg, ClockWrite, CtimerConfig,
    DividerReg, FlexcommConfig, FlexcommConfig14, FlexcommConfig15, FlexcommFclkSel, FlexcommFrgSel,
    FlexcommInstance, FrgCtlReg, NoConfig, OsEventClockSelect, OsEventConfig, SCTClockSource, SPConfHelper,
    Sct0Config, UnimplementedConfig, WdtClkSel, WdtConfig, WdtInstance, divide, enable_plan, frg_divide,
};
use embassy_imxrt::clocks::{Clock, ClockError, ClockId, Clocks, PoweredClock, ProgErrorKind};

fn on(frequency: u32) -> Option<Clock> {
    Some(Clock { frequency, power: PoweredClock::NormalEnabledDeepSleepDisabled })
}

fn always(frequency: u32) -> Option<Clock> {
    Some(Clock { frequency, power: PoweredClock::AlwaysEnabled })
}

fn tree() -> Clocks {
    Clocks {
        main_clk: 48_000_000,
        sys_cpu_ahb_clk: 250_000_000,
        frg_pll: on(282_240_000),
        sfro_16mhz: always(16_000_000),
        ffro_48_60mhz: on(48_000_000),
        clk_in: None,
        lposc_1mhz: always(1_000_000),
        main_pll: on(300_000_000),
        aux0_pll: on(250_000_000),
        aux1_pll: None,
        clk_32khz: always(32_768),
    }
}

#[test]
fn frg_output_formula() {
    assert_eq!(frg_divide(48_000_000, 0), 48_000_000);
    assert_eq!(frg_divide(48_000_000, 128), 32_000_000);
    assert_eq!(frg_divide(u32::MAX, 255), ((u32::MAX as u64 * 256) / 511) as u32);
    assert_eq!(divide(16_000_000, 3), 4_000_000);
    assert_eq!(divide(7, 0), 7);
}

#[test]
fn flexcomm_through_frg() {
    let cfg = FlexcommConfig {
        frg_clk_sel: FlexcommFrgSel::MainClk,
        fc_clk_sel: FlexcommFclkSel::FcnFrgClk,
        instance: FlexcommInstance::Flexcomm2,
        mult: 128,
        powered: PoweredClock::NormalEnabledDeepSleepDisabled,
    };
    assert_eq!(cfg.post_enable_config(&tree()), Ok(32_000_000));
    assert_eq!(
        cfg.register_writes(),
        vec![
            ClockWrite::Select(ClockSelectReg::FlexcommFrg(2), 0),
            ClockWrite::FrgCtl(FrgCtlReg::Flexcomm(2), 128, 0xFF),
            ClockWrite::Select(ClockSelectReg::FlexcommFclk(2), 4),
        ]
    );
}

#[test]
fn flexcomm_direct_sources_and_errors() {
    let mut cfg = FlexcommConfig {
        frg_clk_sel: FlexcommFrgSel::FfroClk,
        fc_clk_sel: FlexcommFclkSel::SfroClk,
        instance: FlexcommInstance::Flexcomm0,
        mult: 0,
        powered: PoweredClock::AlwaysEnabled,
    };
    assert_eq!(cfg.post_enable_config(&tree()), Ok(16_000_000));
    assert_eq!(cfg.register_writes(), vec![ClockWrite::Select(ClockSelectReg::FlexcommFclk(0), 0)]);
    // the FFRO only runs in normal mode
    cfg.fc_clk_sel = FlexcommFclkSel::FfroClk;
    assert_eq!(cfg.post_enable_config(&tree()), Err(ClockError::NotPowered(ClockId::Ffro48_60Mhz)));
    cfg.fc_clk_sel = FlexcommFclkSel::FcnFrgClk;
    assert_eq!(cfg.post_enable_config(&tree()), Err(ClockError::NotPowered(ClockId::Ffro48_60Mhz)));
    cfg.powered = PoweredClock::NormalEnabledDeepSleepDisabled;
    assert_eq!(cfg.post_enable_config(&tree()), Ok(48_000_000));
    cfg.fc_clk_sel = FlexcommFclkSel::AudioPllClk;
    assert_eq!(cfg.post_enable_config(&tree()), Err(ClockError::ProgError(ProgErrorKind::NotImplemented)));
    cfg.fc_clk_sel = FlexcommFclkSel::MasterClk;
    assert_eq!(cfg.post_enable_config(&tree()), Err(ClockError::ProgError(ProgErrorKind::NotImplemented)));
    cfg.fc_clk_sel = FlexcommFclkSel::NoClock;
    assert_eq!(cfg.post_enable_config(&tree()), Ok(0));
    assert_eq!(cfg.register_writes(), vec![ClockWrite::Select(ClockSelectReg::FlexcommFclk(0), 7)]);
}

#[test]
fn flexcomm14_and_15() {
    let mut clocks = tree();
    clocks.frg_pll = None;
    let cfg14 = FlexcommConfig14 {
        frg_clk_sel: FlexcommFrgSel::FrgPllClk,
        fc_clk_sel: FlexcommFclkSel::FcnFrgClk,
        mult: 10,
        powered: PoweredClock::NormalEnabledDeepSleepDisabled,
    };
    assert_eq!(cfg14.post_enable_config(&clocks), Err(ClockError::NotActive(ClockId::FrgPll)));
    assert_eq!(cfg14.post_enable_config(&tree()), Ok(frg_divide(282_240_000, 10)));
    assert_eq!(
        cfg14.register_writes(),
        vec![
            ClockWrite::Select(ClockSelectReg::Frg14, 1),
            ClockWrite::FrgCtl(FrgCtlReg::Frg14, 10, 0xFF),
            ClockWrite::Select(ClockSelectReg::Fc14Fclk, 4),
        ]
    );
    let cfg15 = FlexcommConfig15 {
        frg_clk_sel: FlexcommFrgSel::NoClock,
        fc_clk_sel: FlexcommFclkSel::FcnFrgClk,
        mult: 0,
        powered: PoweredClock::AlwaysEnabled,
    };
    assert_eq!(cfg15.post_enable_config(&tree()), Ok(0));
    assert_eq!(
        cfg15.register_writes(),
        vec![
            ClockWrite::Select(ClockSelectReg::Frg15, 7),
            ClockWrite::FrgCtl(FrgCtlReg::Frg15, 0, 0xFF),
            ClockWrite::Select(ClockSelectReg::Fc15Fclk, 4),
        ]
    );
}

#[test]
fn adc_clock() {
    let mut cfg = AdcConfig {
        sel0: AdcSel0::SfroClk,
        sel1: AdcSel1::Adc0fclksel0MuxOut,
        div: 3,
        powered: PoweredClock::AlwaysEnabled,
    };
    assert_eq!(cfg.post_enable_config(&tree()), Ok(4_000_000));
    assert_eq!(
        cfg.register_writes(),
        vec![
            ClockWrite::Select(ClockSelectReg::Adc0Sel0, 0),
            ClockWrite::Select(ClockSelectReg::Adc0Sel1, 0),
            ClockWrite::Divider(DividerReg::Adc0, 3),
        ]
    );
    cfg.sel0 = AdcSel0::XtalinClk;
    assert_eq!(cfg.post_enable_config(&tree()), Err(ClockError::NotActive(ClockId::ClkIn)));
    // source 1 is the main PLL, which runs in normal mode only
    cfg.sel1 = AdcSel1::Syspll0MainClk;
    cfg.div = 1;
    assert_eq!(cfg.post_enable_config(&tree()), Err(ClockError::NotPowered(ClockId::MainPll)));
    cfg.powered = PoweredClock::NormalEnabledDeepSleepDisabled;
    assert_eq!(cfg.post_enable_config(&tree()), Ok(150_000_000));
    let mut no_pll = tree();
    no_pll.main_pll = None;
    assert_eq!(cfg.post_enable_config(&no_pll), Err(ClockError::NotActive(ClockId::MainPll)));
    assert_eq!(
        cfg.register_writes(),
        vec![
            ClockWrite::Select(ClockSelectReg::Adc0Sel0, 7),
            ClockWrite::Select(ClockSelectReg::Adc0Sel1, 1),
            ClockWrite::Divider(DividerReg::Adc0, 1),
        ]
    );
    cfg.sel1 = AdcSel1::Syspll0Aux1PllClock;
    assert_eq!(cfg.post_enable_config(&tree()), Err(ClockError::NotActive(ClockId::Aux1Pll)));
    cfg.sel1 = AdcSel1::Syspll0Aux0PllClock;
    assert_eq!(cfg.post_enable_config(&tree()), Ok(125_000_000));
    assert_eq!(cfg.register_writes()[1], ClockWrite::Select(ClockSelectReg::Adc0Sel1, 3));
}

#[test]
fn sct_clock() {
    let mut cfg = Sct0Config {
        source: SCTClockSource::MainPLL,
        div: 2,
        powered: PoweredClock::NormalEnabledDeepSleepDisabled,
    };
    assert_eq!(cfg.post_enable_config(&tree()), Ok(100_000_000));
    assert_eq!(
        cfg.register_writes(),
        vec![ClockWrite::Select(ClockSelectReg::Sct, 1), ClockWrite::Divider(DividerReg::Sct, 2)]
    );
    cfg.source = SCTClockSource::AudioPLL;
    assert_eq!(
        cfg.post_enable_config(&tree()),
        Err(ClockError::ProgError(ProgErrorKind::AudioPllNotSupported))
    );
    cfg.source = SCTClockSource::NoClock;
    assert_eq!(cfg.post_enable_config(&tree()), Ok(0));
    assert_eq!(cfg.register_writes(), vec![ClockWrite::Select(ClockSelectReg::Sct, 7)]);
    cfg.source = SCTClockSource::Main;
    cfg.div = 0;
    assert_eq!(cfg.post_enable_config(&tree()), Ok(48_000_000));
    cfg.source = SCTClockSource::Aux1Pll;
    assert_eq!(cfg.post_enable_config(&tree()), Err(ClockError::NotActive(ClockId::Aux1Pll)));
    cfg.source = SCTClockSource::Ffro48_60Mhz;
    assert_eq!(cfg.register_writes()[0], ClockWrite::Select(ClockSelectReg::Sct, 3));
}

#[test]
fn watchdog_ctimer_os_event() {
    let wdt = WdtConfig {
        source: WdtClkSel::LpOsc1m,
        instance: WdtInstance::Wwdt1,
        powered: PoweredClock::AlwaysEnabled,
    };
    assert_eq!(wdt.post_enable_config(&tree()), Ok(1_000_000));
    assert_eq!(wdt.register_writes(), vec![ClockWrite::Select(ClockSelectReg::Wdt1, 0)]);
    let wdt0 = WdtConfig { source: WdtClkSel::NoClock, instance: WdtInstance::Wwdt0, powered: PoweredClock::AlwaysEnabled };
    assert_eq!(wdt0.post_enable_config(&tree()), Ok(0));
    assert_eq!(wdt0.register_writes(), vec![ClockWrite::Select(ClockSelectReg::Wdt0, 7)]);

    let ct = CtimerConfig {
        source: CTimerSel::Lposc,
        instance: CTimerInstance::CTimer4,
        powered: PoweredClock::AlwaysEnabled,
    };
    assert_eq!(ct.post_enable_config(&tree()), Ok(1_000_000));
    assert_eq!(ct.register_writes(), vec![ClockWrite::Select(ClockSelectReg::CTimer(4), 5)]);
    let ct_audio = CtimerConfig { source: CTimerSel::AudioPllClk, instance: CTimerInstance::CTimer0, powered: PoweredClock::AlwaysEnabled };
    assert_eq!(ct_audio.post_enable_config(&tree()), Err(ClockError::ProgError(ProgErrorKind::NotImplemented)));

    let mut os = OsEventConfig { select: OsEventClockSelect::TealFreeRunningClk, powered: PoweredClock::AlwaysEnabled };
    assert_eq!(os.post_enable_config(&tree()), Ok(250_000_000));
    assert_eq!(os.register_writes(), vec![ClockWrite::Select(ClockSelectReg::OsEvent, 2)]);
    os.select = OsEventClockSelect::Rtc32khzClk;
    assert_eq!(os.post_enable_config(&tree()), Ok(32_768));
    let mut no_rtc = tree();
    no_rtc.clk_32khz = None;
    assert_eq!(os.post_enable_config(&no_rtc), Err(ClockError::NotActive(ClockId::Clk32Khz)));
}

#[test]
fn no_and_unimplemented_config() {
    assert_eq!(NoConfig.post_enable_config(&tree()), Ok(0));
    assert!(NoConfig.register_writes().is_empty());
    assert_eq!(
        UnimplementedConfig.post_enable_config(&tree()),
        Err(ClockError::ProgError(ProgErrorKind::PeripheralNotImplemented))
    );
}

#[test]
fn selector_values() {
    assert_eq!(FlexcommFrgSel::NoClock.into_pac(), 7);
    assert_eq!(FlexcommFrgSel::FfroClk.into_pac14(), 3);
    assert_eq!(FlexcommFrgSel::SfroClk.into_pac15(), 2);
    assert_eq!(FlexcommFclkSel::FcnFrgClk.into_pac(), 4);
    assert_eq!(FlexcommFclkSel::MasterClk.into_pac14(), 3);
    assert_eq!(FlexcommFclkSel::AudioPllClk.into_pac15(), 2);
    assert_eq!(CTimerSel::Lposc.into_pac(), 5);
    assert_eq!(AdcSel0::FfroClk.into_pac(), 3);
    assert_eq!(AdcSel1::Syspll0Aux1PllClock.into_pac(), 5);
    assert_eq!(FlexcommInstance::Flexcomm7.index(), 7);
    assert_eq!(CTimerInstance::CTimer3.index(), 3);
}

#[test]
fn power_levels() {
    assert!(PoweredClock::AlwaysEnabled.meets_requirement_of(&PoweredClock::NormalEnabledDeepSleepDisabled));
    assert!(!PoweredClock::NormalEnabledDeepSleepDisabled.meets_requirement_of(&PoweredClock::AlwaysEnabled));
    let t = tree();
    assert_eq!(t.ensure_aux0_pll_clk_active(&PoweredClock::NormalEnabledDeepSleepDisabled), Ok(250_000_000));
    assert_eq!(t.ensure_aux0_pll_clk_active(&PoweredClock::AlwaysEnabled), Err(ClockError::NotPowered(ClockId::Aux0Pll)));
    assert_eq!(t.ensure_clk_in_active(&PoweredClock::NormalEnabledDeepSleepDisabled), Err(ClockError::NotActive(ClockId::ClkIn)));
    assert_eq!(t.ensure_main_pll_clk_active(&PoweredClock::NormalEnabledDeepSleepDisabled), Ok(300_000_000));
}

#[test]
fn writes_come_only_with_the_clock() {
    let cfg = AdcConfig {
        sel0: AdcSel0::SfroClk,
        sel1: AdcSel1::Syspll0MainClk,
        div: 2,
        powered: PoweredClock::NormalEnabledDeepSleepDisabled,
    };
    let (freq, writes) = enable_plan(&cfg, &tree()).unwrap();
    assert_eq!(freq, 100_000_000);
    assert_eq!(
        writes,
        vec![
            ClockWrite::Select(ClockSelectReg::Adc0Sel0, 7),
            ClockWrite::Select(ClockSelectReg::Adc0Sel1, 1),
            ClockWrite::Divider(DividerReg::Adc0, 2),
        ]
    );
    let mut clocks = tree();
    clocks.main_pll = None;
    assert_eq!(enable_plan(&cfg, &clocks), Err(ClockError::NotActive(ClockId::MainPll)));
}

use embassy_imxrt::clocks::periph_helpers::{AdcSel0, AdcSel1, CTimerSel, FlexcommFclkSel, FlexcommFrgSel};
use mimxrt685s_pac::{clkctl0, clkctl1};

#[test]
fn frg_selectors_match_register_values() {
    let pairs = [
        (FlexcommFrgSel::MainClk, clkctl1::flexcomm::frgclksel::Sel::MainClk),
        (FlexcommFrgSel::FrgPllClk, clkctl1::flexcomm::frgclksel::Sel::FrgPllClk),
        (FlexcommFrgSel::SfroClk, clkctl1::flexcomm::frgclksel::Sel::SfroClk),
        (FlexcommFrgSel::FfroClk, clkctl1::flexcomm::frgclksel::Sel::FfroClk),
        (FlexcommFrgSel::NoClock, clkctl1::flexcomm::frgclksel::Sel::None),
    ];
    for (ours, reg) in pairs {
        assert_eq!(ours.into_pac(), u8::from(reg));
        assert_eq!(ours.into_pac14(), u8::from(reg));
        assert_eq!(ours.into_pac15(), u8::from(reg));
    }
    assert_eq!(FlexcommFrgSel::FfroClk.into_pac14(), u8::from(clkctl1::frg14clksel::Sel::FfroClk));
    assert_eq!(FlexcommFrgSel::NoClock.into_pac15(), u8::from(clkctl1::frg15clksel::Sel::None));
}

#[test]
fn function_clock_selectors_match_register_values() {
    let pairs = [
        (FlexcommFclkSel::SfroClk, clkctl1::flexcomm::fcfclksel::Sel::SfroClk),
        (FlexcommFclkSel::FfroClk, clkctl1::flexcomm::fcfclksel::Sel::FfroClk),
        (FlexcommFclkSel::AudioPllClk, clkctl1::flexcomm::fcfclksel::Sel::AudioPllClk),
        (FlexcommFclkSel::MasterClk, clkctl1::flexcomm::fcfclksel::Sel::MasterClk),
        (FlexcommFclkSel::FcnFrgClk, clkctl1::flexcomm::fcfclksel::Sel::FcnFrgClk),
        (FlexcommFclkSel::NoClock, clkctl1::flexcomm::fcfclksel::Sel::None),
    ];
    for (ours, reg) in pairs {
        assert_eq!(ours.into_pac(), u8::from(reg));
        assert_eq!(ours.into_pac14(), u8::from(reg));
        assert_eq!(ours.into_pac15(), u8::from(reg));
    }
}

#[test]
fn ctimer_and_adc_selectors_match_register_values() {
    let ct = [
        (CTimerSel::MainClk, clkctl1::ct32bitfclksel::Sel::MainClk),
        (CTimerSel::SfroClk, clkctl1::ct32bitfclksel::Sel::SfroClk),
        (CTimerSel::FfroClk, clkctl1::ct32bitfclksel::Sel::FfroClk),
        (CTimerSel::AudioPllClk, clkctl1::ct32bitfclksel::Sel::AudioPllClk),
        (CTimerSel::MasterClk, clkctl1::ct32bitfclksel::Sel::MasterClk),
        (CTimerSel::Lposc, clkctl1::ct32bitfclksel::Sel::Lposc),
        (CTimerSel::NoClock, clkctl1::ct32bitfclksel::Sel::None),
    ];
    for (ours, reg) in ct {
        assert_eq!(ours.into_pac(), u8::from(reg));
    }
    let adc0 = [
        (AdcSel0::SfroClk, clkctl0::adc0fclksel0::Sel::SfroClk),
        (AdcSel0::XtalinClk, clkctl0::adc0fclksel0::Sel::XtalinClk),
        (AdcSel0::Lposc, clkctl0::adc0fclksel0::Sel::Lposc),
        (AdcSel0::FfroClk, clkctl0::adc0fclksel0::Sel::FfroClk),
        (AdcSel0::NoClock, clkctl0::adc0fclksel0::Sel::None),
    ];
    for (ours, reg) in adc0 {
        assert_eq!(ours.into_pac(), u8::from(reg));
    }
    let adc1 = [
        (AdcSel1::Adc0fclksel0MuxOut, clkctl0::adc0fclksel1::Sel::Adc0fclksel0MuxOut),
        (AdcSel1::Syspll0MainClk, clkctl0::adc0fclksel1::Sel::Syspll0MainClk),
        (AdcSel1::Syspll0Aux0PllClock, clkctl0::adc0fclksel1::Sel::Syspll0Aux0PllClock),
        (AdcSel1::Syspll0Aux1PllClock, clkctl0::adc0fclksel1::Sel::Syspll0Aux1PllClock),
        (AdcSel1::NoClock, clkctl0::adc0fclksel1::Sel::None),
    ];
    for (ours, reg) in adc1 {
        assert_eq!(ours.into_pac(), u8::from(reg));
    }
}

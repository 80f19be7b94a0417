use pimoroni_badger2040::clocks::{
    ClockAction, ClockDomain, ClockError, ClockEvent, ClockFrequencies, ClockSource, ClockTree,
    Pll, PllSettings, Stage,
};
use pimoroni_badger2040::peripherals::PeripheralToken;
use pimoroni_badger2040::XOSC_CRYSTAL_FREQ;

fn tree(crystal_hz: u32, poll_budget: u32) -> ClockTree {
    let p = PeripheralToken::new().take().unwrap();
    ClockTree::new(crystal_hz, poll_budget, p.watchdog, p.xosc, p.clocks, p.pll_sys, p.pll_usb)
}

fn answer(action: ClockAction) -> ClockEvent {
    match action {
        ClockAction::PollOscillator | ClockAction::PollPll { .. } => ClockEvent::Ready,
        _ => ClockEvent::Written,
    }
}

#[test]
fn crystal_constant_is_12_mhz() {
    assert_eq!(XOSC_CRYSTAL_FREQ, 12_000_000);
}

#[test]
fn bring_up_runs_in_the_fixed_order() {
    let mut tree = tree(12_000_000, 4);
    let mut actions = Vec::new();
    while let Some(action) = tree.pending() {
        actions.push(action);
        tree.advance(answer(action));
    }
    let system = PllSettings { refdiv: 1, fbdiv: 125, post_div1: 6, post_div2: 2 };
    let usb = PllSettings { refdiv: 1, fbdiv: 40, post_div1: 5, post_div2: 2 };
    let generator = |domain, source, divisor| ClockAction::EnableGenerator {
        domain,
        source,
        divisor,
    };
    assert_eq!(
        actions,
        vec![
            ClockAction::ArmWatchdogTick { cycles: 12 },
            ClockAction::StartOscillator { startup_delay: 47 },
            ClockAction::PollOscillator,
            ClockAction::StartPll { pll: Pll::System, settings: system },
            ClockAction::PollPll { pll: Pll::System },
            ClockAction::StartPll { pll: Pll::Usb, settings: usb },
            ClockAction::PollPll { pll: Pll::Usb },
            generator(ClockDomain::Reference, ClockSource::Crystal, 1),
            generator(ClockDomain::System, ClockSource::SystemPll, 1),
            generator(ClockDomain::Peripheral, ClockSource::SystemClock, 1),
            generator(ClockDomain::Usb, ClockSource::UsbPll, 1),
            generator(ClockDomain::Adc, ClockSource::UsbPll, 1),
            generator(ClockDomain::Rtc, ClockSource::UsbPll, 1024),
        ]
    );
    assert_eq!(tree.stage(), Stage::Ready);
}

#[test]
fn twelve_mhz_crystal_gives_125_mhz_system_clock() {
    let mut tree = tree(12_000_000, 4);
    while let Some(action) = tree.pending() {
        assert!(tree.outcome().is_none());
        tree.advance(answer(action));
    }
    let clocks = tree.outcome().unwrap().unwrap();
    assert_eq!(
        clocks.frequencies(),
        ClockFrequencies {
            reference_hz: 12_000_000,
            system_hz: 125_000_000,
            peripheral_hz: 125_000_000,
            usb_hz: 48_000_000,
            adc_hz: 48_000_000,
            rtc_hz: 46_875,
            tick_hz: 1_000_000,
        }
    );
    assert_eq!(clocks.frequency(ClockDomain::Reference), 12_000_000);
    assert_eq!(clocks.frequency(ClockDomain::System), 125_000_000);
    assert_eq!(clocks.frequency(ClockDomain::Peripheral), 125_000_000);
    assert_eq!(clocks.frequency(ClockDomain::Usb), 48_000_000);
    assert_eq!(clocks.frequency(ClockDomain::Adc), 48_000_000);
    assert_eq!(clocks.frequency(ClockDomain::Rtc), 46_875);
    assert_eq!(clocks.tick_hz(), 1_000_000);
    assert!(clocks.frequency(ClockDomain::Peripheral) <= clocks.frequency(ClockDomain::System));
}

#[test]
fn peripheral_clock_never_exceeds_system_clock() {
    for crystal_hz in [5_000_000u32, 7_372_800, 8_000_000, 12_000_000, 14_318_180, 15_000_000] {
        let mut tree = tree(crystal_hz, 1);
        while let Some(action) = tree.pending() {
            tree.advance(answer(action));
        }
        let all = tree.outcome().unwrap().unwrap().frequencies();
        assert_eq!(all.reference_hz, crystal_hz);
        assert_eq!(all.peripheral_hz, all.system_hz);
        assert!(all.system_hz <= 125_000_000);
        assert!(all.system_hz >= 123_750_000);
        assert!(all.system_hz >= all.reference_hz);
        assert!(all.tick_hz >= 1_000_000 && all.tick_hz < 2_000_000);
    }
}

#[test]
fn eight_mhz_crystal_frequencies() {
    let mut tree = tree(8_000_000, 1);
    while let Some(action) = tree.pending() {
        tree.advance(answer(action));
    }
    let all = tree.outcome().unwrap().unwrap().frequencies();
    // 1500 MHz / 8 MHz = 187, 8 MHz * 187 / 12 = 124 666 666 Hz
    assert_eq!(all.system_hz, 124_666_666);
    assert_eq!(all.usb_hz, 48_000_000);
    assert_eq!(all.tick_hz, 1_000_000);
}

#[test]
fn unsupported_crystal_fails_at_once() {
    for crystal_hz in [0u32, 1_000_000, 4_999_999, 15_000_001, u32::MAX] {
        let tree = tree(crystal_hz, 4);
        assert_eq!(tree.stage(), Stage::Failed(ClockError::UnsupportedCrystal));
        assert_eq!(tree.pending(), None);
        assert!(matches!(tree.outcome(), Some(Err(ClockError::UnsupportedCrystal))));
    }
}

#[test]
fn system_pll_lock_timeout() {
    let mut tree = tree(12_000_000, 3);
    for _ in 0..4 {
        let action = tree.pending().unwrap();
        tree.advance(answer(action));
    }
    assert_eq!(tree.stage(), Stage::AwaitSystemPll { polls_left: 3 });
    tree.advance(ClockEvent::NotReady);
    assert_eq!(tree.stage(), Stage::AwaitSystemPll { polls_left: 2 });
    tree.advance(ClockEvent::NotReady);
    assert_eq!(tree.stage(), Stage::AwaitSystemPll { polls_left: 1 });
    assert!(tree.outcome().is_none());
    tree.advance(ClockEvent::NotReady);
    assert_eq!(tree.stage(), Stage::Failed(ClockError::PllLockTimeout(Pll::System)));
    assert_eq!(tree.pending(), None);
    assert!(matches!(tree.outcome(), Some(Err(ClockError::PllLockTimeout(Pll::System)))));
    tree.advance(ClockEvent::Ready);
    assert_eq!(tree.stage(), Stage::Failed(ClockError::PllLockTimeout(Pll::System)));
}

#[test]
fn usb_pll_lock_timeout() {
    let mut tree = tree(12_000_000, 1);
    for _ in 0..6 {
        let action = tree.pending().unwrap();
        tree.advance(answer(action));
    }
    assert_eq!(tree.pending(), Some(ClockAction::PollPll { pll: Pll::Usb }));
    tree.advance(ClockEvent::NotReady);
    assert!(matches!(tree.outcome(), Some(Err(ClockError::PllLockTimeout(Pll::Usb)))));
}

#[test]
fn oscillator_timeout_with_zero_budget() {
    let mut tree = tree(12_000_000, 0);
    tree.advance(ClockEvent::Written);
    tree.advance(ClockEvent::Written);
    assert_eq!(tree.stage(), Stage::AwaitOscillator { polls_left: 0 });
    tree.advance(ClockEvent::NotReady);
    assert_eq!(tree.stage(), Stage::Failed(ClockError::OscillatorTimeout));
}

#[test]
fn lock_within_budget_continues() {
    let mut tree = tree(12_000_000, 3);
    for _ in 0..4 {
        let action = tree.pending().unwrap();
        tree.advance(answer(action));
    }
    tree.advance(ClockEvent::NotReady);
    tree.advance(ClockEvent::NotReady);
    tree.advance(ClockEvent::Ready);
    assert_eq!(tree.stage(), Stage::StartUsbPll);
}

#[test]
fn event_that_does_not_answer_is_ignored() {
    let mut tree = tree(12_000_000, 3);
    tree.advance(ClockEvent::Ready);
    tree.advance(ClockEvent::NotReady);
    assert_eq!(tree.stage(), Stage::ArmWatchdog);
    tree.advance(ClockEvent::Written);
    tree.advance(ClockEvent::Written);
    tree.advance(ClockEvent::Written);
    assert_eq!(tree.stage(), Stage::AwaitOscillator { polls_left: 3 });
}

#[test]
fn ready_stays_ready() {
    let mut tree = tree(12_000_000, 3);
    while let Some(action) = tree.pending() {
        tree.advance(answer(action));
    }
    tree.advance(ClockEvent::Written);
    tree.advance(ClockEvent::NotReady);
    assert_eq!(tree.stage(), Stage::Ready);
}

//! Clock bring-up from the crystal to the derived clock domains.
//!
//! [`ClockTree`] decides, the driver acts: `pending` names the register write or status poll
//! that is due, the driver performs it and reports the outcome to `advance`. The steps come in
//! one fixed order (watchdog tick, crystal oscillator, system PLL, USB PLL, then the clock
//! generators, each after the one it is derived from) and the realized frequencies are handed
//! out only when every step has been done.

use vstd::prelude::*;

use crate::peripherals::{ClocksBlock, PllSys, PllUsb, Watchdog, Xosc};

verus! {

/// Lowest crystal frequency that the PLLs accept as their reference.
pub const CRYSTAL_MIN_HZ: u32 = 5_000_000;

/// Highest frequency that the crystal oscillator supports.
pub const CRYSTAL_MAX_HZ: u32 = 15_000_000;

/// Oscillator frequency that the system PLL is set up for.
pub const SYSTEM_VCO_HZ: u32 = 1_500_000_000;

/// Oscillator frequency that the USB PLL is set up for.
pub const USB_VCO_HZ: u32 = 480_000_000;

/// Divisor of the clock generator that feeds the real-time clock from the USB PLL.
pub const RTC_DIVISOR: u32 = 1024;

/// A derived clock domain.
#[derive(Clone, Copy, Debug, PartialEq, Eq, Structural)]
pub enum ClockDomain {
    Reference,
    System,
    Peripheral,
    Usb,
    Adc,
    Rtc,
}

/// What a clock generator is fed from.
#[derive(Clone, Copy, Debug, PartialEq, Eq, Structural)]
pub enum ClockSource {
    Crystal,
    SystemPll,
    UsbPll,
    SystemClock,
}

/// One of the two PLLs.
#[derive(Clone, Copy, Debug, PartialEq, Eq, Structural)]
pub enum Pll {
    System,
    Usb,
}

/// Why bring-up failed.
#[derive(Clone, Copy, Debug, PartialEq, Eq, Structural)]
pub enum ClockError {
    /// The crystal frequency is outside the supported range.
    UnsupportedCrystal,
    /// The crystal oscillator did not report stable within the polling budget.
    OscillatorTimeout,
    /// A PLL did not report lock within the polling budget.
    PllLockTimeout(Pll),
}

/// Divider settings of a PLL.
#[derive(Clone, Copy, Debug, PartialEq, Eq, Structural)]
pub struct PllSettings {
    pub refdiv: u8,
    pub fbdiv: u16,
    pub post_div1: u8,
    pub post_div2: u8,
}

/// The realized frequency of each clock domain and of the timer tick, in Hz.
#[derive(Clone, Copy, Debug, PartialEq, Eq, Structural)]
pub struct ClockFrequencies {
    pub reference_hz: u32,
    pub system_hz: u32,
    pub peripheral_hz: u32,
    pub usb_hz: u32,
    pub adc_hz: u32,
    pub rtc_hz: u32,
    pub tick_hz: u32,
}

/// A register write or status poll that the driver performs.
#[derive(Clone, Copy, Debug, PartialEq, Eq, Structural)]
pub enum ClockAction {
    /// Make the watchdog tick once every `cycles` cycles of the reference clock.
    ArmWatchdogTick { cycles: u8 },
    /// Start the crystal oscillator with this start-up delay.
    StartOscillator { startup_delay: u16 },
    /// Read whether the crystal oscillator is stable.
    PollOscillator,
    /// Reset a PLL and start it with these dividers.
    StartPll { pll: Pll, settings: PllSettings },
    /// Read whether a PLL has locked.
    PollPll { pll: Pll },
    /// Select the source and divisor of a clock generator and enable it.
    EnableGenerator { domain: ClockDomain, source: ClockSource, divisor: u32 },
}

/// What the driver reports after performing the pending action.
#[derive(Clone, Copy, Debug, PartialEq, Eq, Structural)]
pub enum ClockEvent {
    /// The registers were written.
    Written,
    /// The poll found the oscillator stable or the PLL locked.
    Ready,
    /// The poll found it not yet so.
    NotReady,
}

/// Where bring-up stands.
#[derive(Clone, Copy, Debug, PartialEq, Eq, Structural)]
pub enum Stage {
    ArmWatchdog,
    StartOscillator,
    AwaitOscillator { polls_left: u32 },
    StartSystemPll,
    AwaitSystemPll { polls_left: u32 },
    StartUsbPll,
    AwaitUsbPll { polls_left: u32 },
    EnableGenerator(ClockDomain),
    Ready,
    Failed(ClockError),
}

/// Whether the crystal frequency is one that bring-up supports.
pub open spec fn supported(crystal_hz: u32) -> bool {
    CRYSTAL_MIN_HZ <= crystal_hz <= CRYSTAL_MAX_HZ
}

/// Reference cycles per watchdog tick: one tick per microsecond, rounded down.
pub open spec fn tick_cycles(crystal_hz: u32) -> int {
    crystal_hz as int / 1_000_000
}

/// Start-up delay of the crystal oscillator, in units of 256 crystal cycles: about one
/// millisecond.
pub open spec fn startup_delay(crystal_hz: u32) -> int {
    (crystal_hz as int / 1000 + 128) / 256
}

/// Feedback divider that brings a PLL's oscillator as close to `vco_hz` as the crystal
/// allows without exceeding it.
pub open spec fn feedback_divider(crystal_hz: u32, vco_hz: u32) -> int {
    vco_hz as int / crystal_hz as int
}

/// Output frequency of a PLL fed by the crystal.
pub open spec fn pll_output_hz(crystal_hz: u32, settings: PllSettings) -> int {
    (crystal_hz as int / settings.refdiv as int) * settings.fbdiv as int / (settings.post_div1
        as int * settings.post_div2 as int)
}

/// Dividers of the system PLL: 1500 MHz divided by 6 and by 2.
pub open spec fn system_pll_settings(crystal_hz: u32) -> PllSettings {
    PllSettings {
        refdiv: 1,
        fbdiv: feedback_divider(crystal_hz, SYSTEM_VCO_HZ) as u16,
        post_div1: 6,
        post_div2: 2,
    }
}

/// Dividers of the USB PLL: 480 MHz divided by 5 and by 2.
pub open spec fn usb_pll_settings(crystal_hz: u32) -> PllSettings {
    PllSettings {
        refdiv: 1,
        fbdiv: feedback_divider(crystal_hz, USB_VCO_HZ) as u16,
        post_div1: 5,
        post_div2: 2,
    }
}

/// The frequencies that bring-up realizes from a crystal of `crystal_hz`: the reference
/// clock runs from the crystal, the system clock from the system PLL, the peripheral clock
/// from the system clock, the USB and ADC clocks from the USB PLL, the real-time clock from
/// the USB PLL divided by 1024, and the timer tick from the reference clock divided by the
/// watchdog's cycle count.
pub open spec fn realized(crystal_hz: u32) -> ClockFrequencies {
    let system = pll_output_hz(crystal_hz, system_pll_settings(crystal_hz));
    let usb = pll_output_hz(crystal_hz, usb_pll_settings(crystal_hz));
    ClockFrequencies {
        reference_hz: crystal_hz,
        system_hz: system as u32,
        peripheral_hz: system as u32,
        usb_hz: usb as u32,
        adc_hz: usb as u32,
        rtc_hz: (usb / RTC_DIVISOR as int) as u32,
        tick_hz: (crystal_hz as int / tick_cycles(crystal_hz)) as u32,
    }
}

impl ClockFrequencies {
    /// The frequency of `domain`.
    pub open spec fn of(self, domain: ClockDomain) -> u32 {
        match domain {
            ClockDomain::Reference => self.reference_hz,
            ClockDomain::System => self.system_hz,
            ClockDomain::Peripheral => self.peripheral_hz,
            ClockDomain::Usb => self.usb_hz,
            ClockDomain::Adc => self.adc_hz,
            ClockDomain::Rtc => self.rtc_hz,
        }
    }
}

impl ClockDomain {
    /// The generator that is enabled after this one; none after the last.
    pub open spec fn following(self) -> Option<ClockDomain> {
        match self {
            ClockDomain::Reference => Some(ClockDomain::System),
            ClockDomain::System => Some(ClockDomain::Peripheral),
            ClockDomain::Peripheral => Some(ClockDomain::Usb),
            ClockDomain::Usb => Some(ClockDomain::Adc),
            ClockDomain::Adc => Some(ClockDomain::Rtc),
            ClockDomain::Rtc => None,
        }
    }

    /// Position of this domain's generator among the six.
    pub open spec fn position(self) -> nat {
        match self {
            ClockDomain::Reference => 0,
            ClockDomain::System => 1,
            ClockDomain::Peripheral => 2,
            ClockDomain::Usb => 3,
            ClockDomain::Adc => 4,
            ClockDomain::Rtc => 5,
        }
    }

    /// What this domain's generator is fed from.
    pub open spec fn source(self) -> ClockSource {
        match self {
            ClockDomain::Reference => ClockSource::Crystal,
            ClockDomain::System => ClockSource::SystemPll,
            ClockDomain::Peripheral => ClockSource::SystemClock,
            ClockDomain::Usb | ClockDomain::Adc | ClockDomain::Rtc => ClockSource::UsbPll,
        }
    }

    /// The divisor of this domain's generator.
    pub open spec fn divisor(self) -> u32 {
        if self == ClockDomain::Rtc {
            RTC_DIVISOR
        } else {
            1
        }
    }
}

impl Stage {
    /// Position of the stage in the bring-up order. A failure ranks after everything.
    pub open spec fn rank(self) -> nat {
        match self {
            Stage::ArmWatchdog => 0,
            Stage::StartOscillator => 1,
            Stage::AwaitOscillator { .. } => 2,
            Stage::StartSystemPll => 3,
            Stage::AwaitSystemPll { .. } => 4,
            Stage::StartUsbPll => 5,
            Stage::AwaitUsbPll { .. } => 6,
            Stage::EnableGenerator(domain) => 7 + domain.position(),
            Stage::Ready => 13,
            Stage::Failed(_) => 14,
        }
    }

    /// The stage after a poll that found the hardware not ready: one poll fewer is left, and
    /// when none is left bring-up has failed with `error`.
    pub open spec fn after_miss(polls_left: u32, again: Stage, error: ClockError) -> Stage {
        if polls_left <= 1 {
            Stage::Failed(error)
        } else {
            again
        }
    }
}

/// What a clock tree is, as contracts see it.
pub struct ClockTreeView {
    pub crystal_hz: u32,
    pub poll_budget: u32,
    pub stage: Stage,
}

impl ClockTreeView {
    /// The state in which bring-up starts: at the watchdog, or failed at once if the crystal
    /// is not supported.
    pub open spec fn initial(crystal_hz: u32, poll_budget: u32) -> ClockTreeView {
        ClockTreeView {
            crystal_hz,
            poll_budget,
            stage: if supported(crystal_hz) {
                Stage::ArmWatchdog
            } else {
                Stage::Failed(ClockError::UnsupportedCrystal)
            },
        }
    }

    /// The action that is due; none once bring-up is ready or has failed.
    pub open spec fn action(self) -> Option<ClockAction> {
        match self.stage {
            Stage::ArmWatchdog => Some(
                ClockAction::ArmWatchdogTick { cycles: tick_cycles(self.crystal_hz) as u8 },
            ),
            Stage::StartOscillator => Some(
                ClockAction::StartOscillator {
                    startup_delay: startup_delay(self.crystal_hz) as u16,
                },
            ),
            Stage::AwaitOscillator { .. } => Some(ClockAction::PollOscillator),
            Stage::StartSystemPll => Some(
                ClockAction::StartPll {
                    pll: Pll::System,
                    settings: system_pll_settings(self.crystal_hz),
                },
            ),
            Stage::AwaitSystemPll { .. } => Some(ClockAction::PollPll { pll: Pll::System }),
            Stage::StartUsbPll => Some(
                ClockAction::StartPll { pll: Pll::Usb, settings: usb_pll_settings(self.crystal_hz) },
            ),
            Stage::AwaitUsbPll { .. } => Some(ClockAction::PollPll { pll: Pll::Usb }),
            Stage::EnableGenerator(domain) => Some(
                ClockAction::EnableGenerator {
                    domain,
                    source: domain.source(),
                    divisor: domain.divisor(),
                },
            ),
            Stage::Ready | Stage::Failed(_) => None,
        }
    }

    /// The stage after the driver has reported `event`. A write moves on to the next stage;
    /// a poll moves on when ready and otherwise uses up one poll of the budget; an event that
    /// does not answer the pending action changes nothing.
    pub open spec fn next_stage(self, event: ClockEvent) -> Stage {
        match (self.stage, event) {
            (Stage::ArmWatchdog, ClockEvent::Written) => Stage::StartOscillator,
            (Stage::StartOscillator, ClockEvent::Written) => Stage::AwaitOscillator {
                polls_left: self.poll_budget,
            },
            (Stage::AwaitOscillator { .. }, ClockEvent::Ready) => Stage::StartSystemPll,
            (Stage::AwaitOscillator { polls_left }, ClockEvent::NotReady) => Stage::after_miss(
                polls_left,
                Stage::AwaitOscillator { polls_left: (polls_left - 1) as u32 },
                ClockError::OscillatorTimeout,
            ),
            (Stage::StartSystemPll, ClockEvent::Written) => Stage::AwaitSystemPll {
                polls_left: self.poll_budget,
            },
            (Stage::AwaitSystemPll { .. }, ClockEvent::Ready) => Stage::StartUsbPll,
            (Stage::AwaitSystemPll { polls_left }, ClockEvent::NotReady) => Stage::after_miss(
                polls_left,
                Stage::AwaitSystemPll { polls_left: (polls_left - 1) as u32 },
                ClockError::PllLockTimeout(Pll::System),
            ),
            (Stage::StartUsbPll, ClockEvent::Written) => Stage::AwaitUsbPll {
                polls_left: self.poll_budget,
            },
            (Stage::AwaitUsbPll { .. }, ClockEvent::Ready) => Stage::EnableGenerator(
                ClockDomain::Reference,
            ),
            (Stage::AwaitUsbPll { polls_left }, ClockEvent::NotReady) => Stage::after_miss(
                polls_left,
                Stage::AwaitUsbPll { polls_left: (polls_left - 1) as u32 },
                ClockError::PllLockTimeout(Pll::Usb),
            ),
            (Stage::EnableGenerator(domain), ClockEvent::Written) => match domain.following() {
                Some(next) => Stage::EnableGenerator(next),
                None => Stage::Ready,
            },
            (stage, _) => stage,
        }
    }

    /// The clock tree after the driver has reported `event`.
    pub open spec fn after(self, event: ClockEvent) -> ClockTreeView {
        ClockTreeView { stage: self.next_stage(event), ..self }
    }

    /// The clock tree after the driver has reported `events`, first to last.
    pub open spec fn after_all(self, events: Seq<ClockEvent>) -> ClockTreeView
        decreases events.len(),
    {
        if events.len() == 0 {
            self
        } else {
            self.after_all(events.drop_last()).after(events.last())
        }
    }

    /// How bring-up ended: the realized frequencies once every step is done, the error once
    /// one has failed, nothing while steps are still due.
    pub open spec fn outcome(self) -> Option<Result<ClockFrequencies, ClockError>> {
        match self.stage {
            Stage::Ready => Some(Ok(realized(self.crystal_hz))),
            Stage::Failed(error) => Some(Err(error)),
            _ => None,
        }
    }
}

/// The realized frequency of each clock domain. Fixed once bring-up has handed it out.
#[derive(Clone, Copy, Debug)]
pub struct Clocks {
    crystal_hz: u32,
    frequencies: ClockFrequencies,
}

impl View for Clocks {
    type V = ClockFrequencies;

    closed spec fn view(&self) -> ClockFrequencies {
        self.frequencies
    }
}

impl Clocks {
    #[verifier::type_invariant]
    spec fn well_formed(self) -> bool {
        supported(self.crystal_hz) && self.frequencies == realized(self.crystal_hz)
    }

    /// The crystal frequency that these clocks were realized from.
    pub closed spec fn crystal_hz(self) -> u32 {
        self.crystal_hz
    }

    /// The realized frequencies of a supported crystal.
    fn realize(crystal_hz: u32) -> (clocks: Clocks)
        requires
            supported(crystal_hz),
        ensures
            clocks@ == realized(crystal_hz),
            clocks.crystal_hz() == crystal_hz,
    {
        let system_fbdiv = SYSTEM_VCO_HZ / crystal_hz;
        let usb_fbdiv = USB_VCO_HZ / crystal_hz;
        assert(crystal_hz * system_fbdiv <= SYSTEM_VCO_HZ) by (nonlinear_arith)
            requires
                crystal_hz > 0,
                system_fbdiv == SYSTEM_VCO_HZ as int / crystal_hz as int,
        ;
        assert(crystal_hz * usb_fbdiv <= USB_VCO_HZ) by (nonlinear_arith)
            requires
                crystal_hz > 0,
                usb_fbdiv == USB_VCO_HZ as int / crystal_hz as int,
        ;
        assert(system_fbdiv <= 300 && usb_fbdiv <= 96) by (nonlinear_arith)
            requires
                crystal_hz >= 5_000_000,
                system_fbdiv == 1_500_000_000int / crystal_hz as int,
                usb_fbdiv == 480_000_000int / crystal_hz as int,
        ;
        let system_hz = crystal_hz * system_fbdiv / 12;
        let usb_hz = crystal_hz * usb_fbdiv / 10;
        let cycles = crystal_hz / 1_000_000;
        Clocks {
            crystal_hz,
            frequencies: ClockFrequencies {
                reference_hz: crystal_hz,
                system_hz,
                peripheral_hz: system_hz,
                usb_hz,
                adc_hz: usb_hz,
                rtc_hz: usb_hz / RTC_DIVISOR,
                tick_hz: crystal_hz / cycles,
            },
        }
    }

    /// The realized frequency of `domain`, in Hz.
    pub fn frequency(&self, domain: ClockDomain) -> (hz: u32)
        ensures
            hz == self@.of(domain),
    {
        match domain {
            ClockDomain::Reference => self.frequencies.reference_hz,
            ClockDomain::System => self.frequencies.system_hz,
            ClockDomain::Peripheral => self.frequencies.peripheral_hz,
            ClockDomain::Usb => self.frequencies.usb_hz,
            ClockDomain::Adc => self.frequencies.adc_hz,
            ClockDomain::Rtc => self.frequencies.rtc_hz,
        }
    }

    /// The rate of the timer tick, in Hz: once per microsecond or a little faster.
    pub fn tick_hz(&self) -> (hz: u32)
        ensures
            hz == self@.tick_hz,
            1_000_000 <= hz < 2_000_000,
    {
        proof {
            use_type_invariant(self);
            lemma_realized_bounds(self.crystal_hz);
        }
        self.frequencies.tick_hz
    }

    /// All realized frequencies. They are those that the crystal gives, the peripheral clock
    /// runs at the system clock's frequency, and the system clock is no slower than the
    /// reference clock.
    pub fn frequencies(&self) -> (all: ClockFrequencies)
        ensures
            all == self@,
            supported(self.crystal_hz()),
            all == realized(self.crystal_hz()),
            all.peripheral_hz == all.system_hz,
            all.reference_hz <= all.system_hz,
    {
        proof {
            use_type_invariant(self);
            lemma_realized_bounds(self.crystal_hz);
        }
        self.frequencies
    }
}

/// For every supported crystal the realized frequencies fit their registers: the feedback
/// dividers are within what a PLL accepts, the system clock runs within one percent of
/// 125 MHz and never above it, the peripheral clock is the system clock, and the timer ticks
/// at least once per microsecond and less than twice.
pub proof fn lemma_realized_bounds(crystal_hz: u32)
    requires
        supported(crystal_hz),
    ensures
        16 <= feedback_divider(crystal_hz, SYSTEM_VCO_HZ) <= 320,
        16 <= feedback_divider(crystal_hz, USB_VCO_HZ) <= 320,
        realized(crystal_hz).reference_hz == crystal_hz,
        123_750_000 <= realized(crystal_hz).system_hz <= 125_000_000,
        realized(crystal_hz).system_hz == pll_output_hz(
            crystal_hz,
            system_pll_settings(crystal_hz),
        ),
        realized(crystal_hz).peripheral_hz == realized(crystal_hz).system_hz,
        realized(crystal_hz).reference_hz <= realized(crystal_hz).system_hz,
        realized(crystal_hz).usb_hz <= 48_000_000,
        realized(crystal_hz).usb_hz == pll_output_hz(crystal_hz, usb_pll_settings(crystal_hz)),
        realized(crystal_hz).adc_hz == realized(crystal_hz).usb_hz,
        realized(crystal_hz).rtc_hz == realized(crystal_hz).usb_hz / RTC_DIVISOR,
        1_000_000 <= realized(crystal_hz).tick_hz < 2_000_000,
        realized(crystal_hz).tick_hz == crystal_hz / (crystal_hz / 1_000_000),
{
    let c = crystal_hz as int;
    let fs = 1_500_000_000int / c;
    let fu = 480_000_000int / c;
    let k = c / 1_000_000;
    assert(100 <= fs <= 300 && c * fs <= 1_500_000_000 && c * fs > 1_500_000_000 - c)
        by (nonlinear_arith)
        requires
            5_000_000 <= c <= 15_000_000,
            fs == 1_500_000_000int / c,
    ;
    assert(32 <= fu <= 96 && c * fu <= 480_000_000 && c * fu >= 0) by (nonlinear_arith)
        requires
            5_000_000 <= c <= 15_000_000,
            fu == 480_000_000int / c,
    ;
    assert(5 <= k <= 15 && 1_000_000 <= c / k < 2_000_000) by (nonlinear_arith)
        requires
            5_000_000 <= c <= 15_000_000,
            k == c / 1_000_000,
    ;
    let system = system_pll_settings(crystal_hz);
    let usb = usb_pll_settings(crystal_hz);
    assert(system.fbdiv == fs && usb.fbdiv == fu);
    assert((c / (system.refdiv as int)) * (system.fbdiv as int) == c * fs) by (nonlinear_arith)
        requires
            system.refdiv == 1,
            system.fbdiv == fs,
    ;
    assert((c / (usb.refdiv as int)) * (usb.fbdiv as int) == c * fu) by (nonlinear_arith)
        requires
            usb.refdiv == 1,
            usb.fbdiv == fu,
    ;
    assert(system.post_div1 as int * system.post_div2 as int == 12);
    assert(usb.post_div1 as int * usb.post_div2 as int == 10);
    assert(pll_output_hz(crystal_hz, system) == c * fs / 12);
    assert(pll_output_hz(crystal_hz, usb) == c * fu / 10);
}

/// A 12 MHz crystal gives a 125 MHz system clock, a peripheral clock at the same frequency,
/// 48 MHz for USB and the ADC, 46 875 Hz for the real-time clock and a 1 MHz timer tick.
pub proof fn lemma_realized_from_12mhz()
    ensures
        supported(12_000_000),
        realized(12_000_000) == (ClockFrequencies {
            reference_hz: 12_000_000,
            system_hz: 125_000_000,
            peripheral_hz: 125_000_000,
            usb_hz: 48_000_000,
            adc_hz: 48_000_000,
            rtc_hz: 46_875,
            tick_hz: 1_000_000,
        }),
        system_pll_settings(12_000_000) == (PllSettings {
            refdiv: 1,
            fbdiv: 125,
            post_div1: 6,
            post_div2: 2,
        }),
        usb_pll_settings(12_000_000) == (PllSettings {
            refdiv: 1,
            fbdiv: 40,
            post_div1: 5,
            post_div2: 2,
        }),
        tick_cycles(12_000_000) == 12,
        startup_delay(12_000_000) == 47,
{
    assert(1_500_000_000int / 12_000_000int == 125);
    assert(480_000_000int / 12_000_000int == 40);
    assert(12_000_000int / 1int * 125int / (6int * 2int) == 125_000_000);
    assert(12_000_000int / 1int * 40int / (5int * 2int) == 48_000_000);
    assert(48_000_000int / 1024int == 46_875);
    assert(12_000_000int / 1_000_000int == 12);
    assert(12_000_000int / 12int == 1_000_000);
    assert((12_000_000int / 1000int + 128) / 256int == 47);
}

impl Stage {
    /// The error that bring-up fails with when the polls of this stage run out; none for a
    /// stage that does not poll.
    pub open spec fn timeout(self) -> Option<ClockError> {
        match self {
            Stage::AwaitOscillator { .. } => Some(ClockError::OscillatorTimeout),
            Stage::AwaitSystemPll { .. } => Some(ClockError::PllLockTimeout(Pll::System)),
            Stage::AwaitUsbPll { .. } => Some(ClockError::PllLockTimeout(Pll::Usb)),
            _ => None,
        }
    }

    /// The polls that are left in a polling stage.
    pub open spec fn polls_left(self) -> u32 {
        match self {
            Stage::AwaitOscillator { polls_left } => polls_left,
            Stage::AwaitSystemPll { polls_left } => polls_left,
            Stage::AwaitUsbPll { polls_left } => polls_left,
            _ => 0,
        }
    }
}

/// One report moves bring-up on by at most one stage and never back. Only a poll that has
/// used up its budget makes it fail, and once ready or failed it stays as it is. The
/// crystal and the budget never change.
pub proof fn lemma_advance_in_order(tree: ClockTreeView, event: ClockEvent)
    ensures
        tree.after(event).crystal_hz == tree.crystal_hz,
        tree.after(event).poll_budget == tree.poll_budget,
        tree.stage is Ready || tree.stage is Failed ==> tree.after(event) == tree,
        tree.after(event).stage is Failed && !(tree.stage is Failed) ==> {
            &&& event == ClockEvent::NotReady
            &&& tree.stage.polls_left() <= 1
            &&& tree.stage.timeout() == Some(tree.after(event).stage->Failed_0)
        },
        !(tree.after(event).stage is Failed) ==> tree.after(event).stage.rank()
            == tree.stage.rank() || tree.after(event).stage.rank() == tree.stage.rank() + 1,
{
}

/// Whatever the driver reports, bring-up that has reached a stage has been through every
/// stage before it: the watchdog before the oscillator, the oscillator before the PLLs, the
/// PLLs before the generators, the system clock's generator before the peripheral clock's,
/// and all of them before it is ready.
pub proof fn lemma_no_stage_skipped(tree: ClockTreeView, events: Seq<ClockEvent>, rank: nat)
    requires
        tree.stage.rank() <= rank <= tree.after_all(events).stage.rank(),
        !(tree.after_all(events).stage is Failed),
    ensures
        exists|n: int|
            0 <= n <= events.len() && #[trigger] tree.after_all(events.take(n)).stage.rank()
                == rank,
    decreases events.len(),
{
    if events.len() == 0 {
        assert(events.take(0) =~= events);
    } else {
        let earlier = events.drop_last();
        let before = tree.after_all(earlier);
        lemma_advance_in_order(before, events.last());
        if tree.after_all(events).stage.rank() == rank {
            assert(events.take(events.len() as int) =~= events);
        } else {
            lemma_no_stage_skipped(tree, earlier, rank);
            let n = choose|n: int|
                0 <= n <= earlier.len() && #[trigger] tree.after_all(earlier.take(n)).stage.rank()
                    == rank;
            assert(earlier.take(n) =~= events.take(n));
        }
    }
}

/// A poll stage whose hardware never becomes ready fails when its budget is used up: after
/// as many polls as were left (or after one, if none was left) bring-up has failed with the
/// stage's timeout, and no clocks are handed out.
pub proof fn lemma_polls_run_out(tree: ClockTreeView, polls: nat)
    requires
        tree.stage.timeout() is Some,
        polls >= 1,
        polls >= tree.stage.polls_left(),
    ensures
        tree.after_all(Seq::new(polls, |i: int| ClockEvent::NotReady)).stage == Stage::Failed(
            tree.stage.timeout()->Some_0,
        ),
        tree.after_all(Seq::new(polls, |i: int| ClockEvent::NotReady)).outcome() == Some(
            Err::<ClockFrequencies, ClockError>(tree.stage.timeout()->Some_0),
        ),
    decreases polls,
{
    let events = Seq::new(polls, |i: int| ClockEvent::NotReady);
    let earlier = Seq::new((polls - 1) as nat, |i: int| ClockEvent::NotReady);
    assert(events.drop_last() =~= earlier);
    assert(events.last() == ClockEvent::NotReady);
    if polls == 1 {
        assert(earlier.len() == 0);
        assert(tree.after_all(earlier) == tree);
    } else if polls - 1 >= tree.stage.polls_left() {
        lemma_polls_run_out(tree, (polls - 1) as nat);
    } else {
        lemma_misses_count_down(tree, (polls - 1) as nat);
    }
}

/// While polls are left, each poll that finds the hardware not ready uses up one of them
/// and leaves bring-up in the same stage.
pub proof fn lemma_misses_count_down(tree: ClockTreeView, polls: nat)
    requires
        tree.stage.timeout() is Some,
        polls < tree.stage.polls_left(),
    ensures
        tree.after_all(Seq::new(polls, |i: int| ClockEvent::NotReady)).stage.timeout()
            == tree.stage.timeout(),
        tree.after_all(Seq::new(polls, |i: int| ClockEvent::NotReady)).stage.polls_left()
            == tree.stage.polls_left() - polls,
    decreases polls,
{
    let events = Seq::new(polls, |i: int| ClockEvent::NotReady);
    if polls > 0 {
        let earlier = Seq::new((polls - 1) as nat, |i: int| ClockEvent::NotReady);
        assert(events.drop_last() =~= earlier);
        assert(events.last() == ClockEvent::NotReady);
        lemma_misses_count_down(tree, (polls - 1) as nat);
    }
}

/// The clock tree manager.
pub struct ClockTree {
    crystal_hz: u32,
    poll_budget: u32,
    stage: Stage,
}

impl View for ClockTree {
    type V = ClockTreeView;

    closed spec fn view(&self) -> ClockTreeView {
        ClockTreeView {
            crystal_hz: self.crystal_hz,
            poll_budget: self.poll_budget,
            stage: self.stage,
        }
    }
}

impl ClockTree {
    #[verifier::type_invariant]
    spec fn well_formed(self) -> bool {
        supported(self.crystal_hz) || self.stage == Stage::Failed(ClockError::UnsupportedCrystal)
    }

    /// Takes over the watchdog, oscillator, clock and PLL blocks for bring-up from a crystal
    /// of `crystal_hz`. Each status poll may be repeated until `poll_budget` polls have found
    /// the hardware not ready. Nothing has been touched yet: the first action due is the
    /// watchdog tick. With an unsupported crystal bring-up has failed at once.
    pub fn new(
        crystal_hz: u32,
        poll_budget: u32,
        watchdog: Watchdog,
        xosc: Xosc,
        clocks: ClocksBlock,
        pll_sys: PllSys,
        pll_usb: PllUsb,
    ) -> (tree: ClockTree)
        ensures
            tree@ == ClockTreeView::initial(crystal_hz, poll_budget),
    {
        let stage = if CRYSTAL_MIN_HZ <= crystal_hz && crystal_hz <= CRYSTAL_MAX_HZ {
            Stage::ArmWatchdog
        } else {
            Stage::Failed(ClockError::UnsupportedCrystal)
        };
        ClockTree { crystal_hz, poll_budget, stage }
    }

    /// Where bring-up stands.
    pub fn stage(&self) -> (stage: Stage)
        ensures
            stage == self@.stage,
    {
        self.stage
    }

    /// The action that the driver is to perform now; none once bring-up is ready or has
    /// failed.
    pub fn pending(&self) -> (action: Option<ClockAction>)
        ensures
            action == self@.action(),
    {
        proof {
            use_type_invariant(self);
            if supported(self.crystal_hz) {
                lemma_realized_bounds(self.crystal_hz);
            }
        }
        match self.stage {
            Stage::ArmWatchdog => Some(
                ClockAction::ArmWatchdogTick { cycles: (self.crystal_hz / 1_000_000) as u8 },
            ),
            Stage::StartOscillator => Some(
                ClockAction::StartOscillator {
                    startup_delay: ((self.crystal_hz / 1000 + 128) / 256) as u16,
                },
            ),
            Stage::AwaitOscillator { .. } => Some(ClockAction::PollOscillator),
            Stage::StartSystemPll => Some(
                ClockAction::StartPll {
                    pll: Pll::System,
                    settings: PllSettings {
                        refdiv: 1,
                        fbdiv: (SYSTEM_VCO_HZ / self.crystal_hz) as u16,
                        post_div1: 6,
                        post_div2: 2,
                    },
                },
            ),
            Stage::AwaitSystemPll { .. } => Some(ClockAction::PollPll { pll: Pll::System }),
            Stage::StartUsbPll => Some(
                ClockAction::StartPll {
                    pll: Pll::Usb,
                    settings: PllSettings {
                        refdiv: 1,
                        fbdiv: (USB_VCO_HZ / self.crystal_hz) as u16,
                        post_div1: 5,
                        post_div2: 2,
                    },
                },
            ),
            Stage::AwaitUsbPll { .. } => Some(ClockAction::PollPll { pll: Pll::Usb }),
            Stage::EnableGenerator(domain) => {
                let (source, divisor) = match domain {
                    ClockDomain::Reference => (ClockSource::Crystal, 1u32),
                    ClockDomain::System => (ClockSource::SystemPll, 1u32),
                    ClockDomain::Peripheral => (ClockSource::SystemClock, 1u32),
                    ClockDomain::Usb => (ClockSource::UsbPll, 1u32),
                    ClockDomain::Adc => (ClockSource::UsbPll, 1u32),
                    ClockDomain::Rtc => (ClockSource::UsbPll, RTC_DIVISOR),
                };
                Some(ClockAction::EnableGenerator { domain, source, divisor })
            },
            Stage::Ready => None,
            Stage::Failed(_) => None,
        }
    }

    /// Takes the driver's report on the pending action and moves to the stage that follows.
    /// The stage never moves back and never skips one; once ready or failed it stays.
    pub fn advance(&mut self, event: ClockEvent)
        ensures
            final(self)@ == old(self)@.after(event),
            final(self)@.stage.rank() == old(self)@.stage.rank() || final(self)@.stage.rank()
                == old(self)@.stage.rank() + 1 || final(self)@.stage is Failed,
            old(self)@.stage is Ready || old(self)@.stage is Failed ==> final(self)@ == old(
                self,
            )@,
    {
        proof {
            use_type_invariant(&*self);
        }
        let budget = self.poll_budget;
        let next = match (self.stage, event) {
            (Stage::ArmWatchdog, ClockEvent::Written) => Stage::StartOscillator,
            (Stage::StartOscillator, ClockEvent::Written) => Stage::AwaitOscillator {
                polls_left: budget,
            },
            (Stage::AwaitOscillator { .. }, ClockEvent::Ready) => Stage::StartSystemPll,
            (Stage::AwaitOscillator { polls_left }, ClockEvent::NotReady) => {
                if polls_left <= 1 {
                    Stage::Failed(ClockError::OscillatorTimeout)
                } else {
                    Stage::AwaitOscillator { polls_left: polls_left - 1 }
                }
            },
            (Stage::StartSystemPll, ClockEvent::Written) => Stage::AwaitSystemPll {
                polls_left: budget,
            },
            (Stage::AwaitSystemPll { .. }, ClockEvent::Ready) => Stage::StartUsbPll,
            (Stage::AwaitSystemPll { polls_left }, ClockEvent::NotReady) => {
                if polls_left <= 1 {
                    Stage::Failed(ClockError::PllLockTimeout(Pll::System))
                } else {
                    Stage::AwaitSystemPll { polls_left: polls_left - 1 }
                }
            },
            (Stage::StartUsbPll, ClockEvent::Written) => Stage::AwaitUsbPll { polls_left: budget },
            (Stage::AwaitUsbPll { .. }, ClockEvent::Ready) => Stage::EnableGenerator(
                ClockDomain::Reference,
            ),
            (Stage::AwaitUsbPll { polls_left }, ClockEvent::NotReady) => {
                if polls_left <= 1 {
                    Stage::Failed(ClockError::PllLockTimeout(Pll::Usb))
                } else {
                    Stage::AwaitUsbPll { polls_left: polls_left - 1 }
                }
            },
            (Stage::EnableGenerator(domain), ClockEvent::Written) => match domain {
                ClockDomain::Reference => Stage::EnableGenerator(ClockDomain::System),
                ClockDomain::System => Stage::EnableGenerator(ClockDomain::Peripheral),
                ClockDomain::Peripheral => Stage::EnableGenerator(ClockDomain::Usb),
                ClockDomain::Usb => Stage::EnableGenerator(ClockDomain::Adc),
                ClockDomain::Adc => Stage::EnableGenerator(ClockDomain::Rtc),
                ClockDomain::Rtc => Stage::Ready,
            },
            (stage, _) => stage,
        };
        self.stage = next;
    }

    /// How bring-up ended: the clocks once every step is done, the error once one has failed,
    /// nothing while steps are still due. No clocks are handed out before the last step.
    pub fn outcome(&self) -> (ended: Option<Result<Clocks, ClockError>>)
        ensures
            ended is None <==> self@.outcome() is None,
            ended matches Some(Ok(clocks)) ==> self@.outcome() == Some(
                Ok::<ClockFrequencies, ClockError>(clocks@),
            ) && clocks.crystal_hz() == self@.crystal_hz,
            ended matches Some(Err(error)) ==> self@.outcome() == Some(
                Err::<ClockFrequencies, ClockError>(error),
            ),
    {
        proof {
            use_type_invariant(self);
        }
        match self.stage {
            Stage::Ready => Some(Ok(Clocks::realize(self.crystal_hz))),
            Stage::Failed(error) => Some(Err(error)),
            _ => None,
        }
    }
}

} // verus!

//! Exclusive ownership of the hardware: a bundle of peripheral handles that is handed out once.

use vstd::prelude::*;

use crate::critical::{run_exclusive, Exclusive};

verus! {

/// Handle to the watchdog.
pub struct Watchdog {
    owned: (),
}

/// Handle to the crystal oscillator.
pub struct Xosc {
    owned: (),
}

/// Handle to the clock generators.
pub struct ClocksBlock {
    owned: (),
}

/// Handle to the system PLL.
pub struct PllSys {
    owned: (),
}

/// Handle to the USB PLL.
pub struct PllUsb {
    owned: (),
}

/// Handle to the peripheral reset controller.
pub struct Resets {
    owned: (),
}

/// Handle to the function-select and interrupt registers of the GPIO bank.
pub struct IoBank0 {
    owned: (),
}

/// Handle to the pad-control registers of the GPIO bank.
pub struct PadsBank0 {
    owned: (),
}

/// Handle to the single-cycle I/O block, which holds the level, output and output-enable
/// words of the GPIO bank.
pub struct Sio {
    owned: (),
}

/// Handle to the timer block.
pub struct TimerBlock {
    owned: (),
}

/// Handle to the first SPI controller.
pub struct Spi0 {
    owned: (),
}

/// Every peripheral handle. None of them can be made in another way than by taking the
/// bundle, so whoever holds a handle holds the only one.
pub struct Peripherals {
    pub watchdog: Watchdog,
    pub xosc: Xosc,
    pub clocks: ClocksBlock,
    pub pll_sys: PllSys,
    pub pll_usb: PllUsb,
    pub resets: Resets,
    pub io_bank0: IoBank0,
    pub pads_bank0: PadsBank0,
    pub sio: Sio,
    pub timer: TimerBlock,
    pub spi0: Spi0,
}

/// What one take does to a slot: it hands out what the slot holds and leaves it empty.
pub open spec fn take_from(slot: Option<Peripherals>) -> (Option<Peripherals>, Option<Peripherals>) {
    (None, slot)
}

/// What `count` takes in a row hand out, first to last.
pub open spec fn taken_in_a_row(slot: Option<Peripherals>, count: nat) -> Seq<Option<Peripherals>>
    decreases count,
{
    if count == 0 {
        Seq::empty()
    } else {
        seq![take_from(slot).1] + taken_in_a_row(take_from(slot).0, (count - 1) as nat)
    }
}

/// Of any number of takes in a row from a slot that holds the bundle, the first hands it out
/// and every later one hands out nothing.
pub proof fn lemma_only_first_take_succeeds(slot: Option<Peripherals>, count: nat)
    requires
        slot is Some,
        count >= 1,
    ensures
        taken_in_a_row(slot, count).len() == count,
        taken_in_a_row(slot, count)[0] == slot,
        forall|i: int| 1 <= i < count ==> (#[trigger] taken_in_a_row(slot, count)[i]) is None,
{
    lemma_empty_slot_hands_out_nothing((count - 1) as nat);
}

/// Takes from an empty slot hand out nothing, however many are made.
pub proof fn lemma_empty_slot_hands_out_nothing(count: nat)
    ensures
        taken_in_a_row(None, count).len() == count,
        forall|i: int| 0 <= i < count ==> (#[trigger] taken_in_a_row(None, count)[i]) is None,
    decreases count,
{
    if count > 0 {
        lemma_empty_slot_hands_out_nothing((count - 1) as nat);
    }
}

/// The one place that the peripheral bundle is taken from. It holds the bundle from power-on
/// until the first take and is empty ever after.
pub struct PeripheralToken {
    slot: Option<Peripherals>,
}

impl View for PeripheralToken {
    type V = Option<Peripherals>;

    closed spec fn view(&self) -> Option<Peripherals> {
        self.slot
    }
}

/// Checks the slot and clears it.
struct Claim;

impl Exclusive<PeripheralToken> for Claim {
    type Output = Option<Peripherals>;

    closed spec fn effect(
        &self,
        before: PeripheralToken,
        after: PeripheralToken,
        out: Option<Peripherals>,
    ) -> bool {
        (after@, out) == take_from(before@)
    }

    fn run(&self, state: &mut PeripheralToken) -> (out: Option<Peripherals>) {
        state.slot.take()
    }
}

impl PeripheralToken {
    /// The token as it is at power-on: it holds every peripheral.
    pub fn new() -> (token: PeripheralToken)
        ensures
            token@ is Some,
    {
        PeripheralToken {
            slot: Some(
                Peripherals {
                    watchdog: Watchdog { owned: () },
                    xosc: Xosc { owned: () },
                    clocks: ClocksBlock { owned: () },
                    pll_sys: PllSys { owned: () },
                    pll_usb: PllUsb { owned: () },
                    resets: Resets { owned: () },
                    io_bank0: IoBank0 { owned: () },
                    pads_bank0: PadsBank0 { owned: () },
                    sio: Sio { owned: () },
                    timer: TimerBlock { owned: () },
                    spi0: Spi0 { owned: () },
                },
            ),
        }
    }

    /// Whether the bundle has not been taken yet.
    pub fn is_available(&self) -> (available: bool)
        ensures
            available == self@ is Some,
    {
        self.slot.is_some()
    }

    /// Hands out the peripheral bundle if it has not been taken before, and nothing
    /// otherwise. After the call the token is empty. The check and the clearing run together
    /// with interrupts masked.
    pub fn take(&mut self) -> (bundle: Option<Peripherals>)
        ensures
            (final(self)@, bundle) == take_from(old(self)@),
            bundle is Some <==> old(self)@ is Some,
            final(self)@ is None,
    {
        run_exclusive(&Claim, self)
    }
}

} // verus!

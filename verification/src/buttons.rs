//! The button bank and its one-byte snapshot.
//!
//! Five buttons connect their pad to the supply when pressed and are read through a
//! pull-down; the user button connects its pad to ground when pressed. A snapshot holds one
//! bit per button, set when the button is pressed.

use vstd::prelude::*;

use crate::gpio::{
    lemma_set_interrupt_idempotent, Interrupt, Pin, PinError, PinMode, PinView, Pull,
};
use crate::pins::PinName;

verus! {

/// Bit of button A in a snapshot.
pub const BIT_A: u8 = 0;

/// Bit of button B in a snapshot.
pub const BIT_B: u8 = 1;

/// Bit of button C in a snapshot.
pub const BIT_C: u8 = 2;

/// Bit of the up button in a snapshot.
pub const BIT_UP: u8 = 3;

/// Bit of the down button in a snapshot.
pub const BIT_DOWN: u8 = 4;

/// Bit of the user button in a snapshot.
pub const BIT_USR: u8 = 5;

/// Whether bit `bit` of `data` is set.
pub open spec fn bit_set(data: u8, bit: u8) -> bool {
    data & (1u8 << bit) != 0
}

/// The snapshot byte for the six buttons, each given as pressed or not.
pub open spec fn packed(a: bool, b: bool, c: bool, up: bool, down: bool, usr: bool) -> u8 {
    let a = if a { 1int } else { 0 };
    let b = if b { 2int } else { 0 };
    let c = if c { 4int } else { 0 };
    let up = if up { 8int } else { 0 };
    let down = if down { 16int } else { 0 };
    let usr = if usr { 32int } else { 0 };
    (a + b + c + up + down + usr) as u8
}

/// Each bit of a snapshot byte tells of its button and of nothing else, and the two top
/// bits are clear.
pub proof fn lemma_packed_bits(a: bool, b: bool, c: bool, up: bool, down: bool, usr: bool)
    ensures
        bit_set(packed(a, b, c, up, down, usr), BIT_A) == a,
        bit_set(packed(a, b, c, up, down, usr), BIT_B) == b,
        bit_set(packed(a, b, c, up, down, usr), BIT_C) == c,
        bit_set(packed(a, b, c, up, down, usr), BIT_UP) == up,
        bit_set(packed(a, b, c, up, down, usr), BIT_DOWN) == down,
        bit_set(packed(a, b, c, up, down, usr), BIT_USR) == usr,
        !bit_set(packed(a, b, c, up, down, usr), 6),
        !bit_set(packed(a, b, c, up, down, usr), 7),
        packed(a, b, c, up, down, usr) < 64,
{
    let wa: u8 = if a { 1 } else { 0 };
    let wb: u8 = if b { 2 } else { 0 };
    let wc: u8 = if c { 4 } else { 0 };
    let wu: u8 = if up { 8 } else { 0 };
    let wd: u8 = if down { 16 } else { 0 };
    let wr: u8 = if usr { 32 } else { 0 };
    let data = packed(a, b, c, up, down, usr);
    assert(data == wa + wb + wc + wu + wd + wr);
    assert(data == wa | wb | wc | wu | wd | wr) by (bit_vector)
        requires
            data == wa + wb + wc + wu + wd + wr,
            wa == 0 || wa == 1,
            wb == 0 || wb == 2,
            wc == 0 || wc == 4,
            wu == 0 || wu == 8,
            wd == 0 || wd == 16,
            wr == 0 || wr == 32,
    ;
    assert({
        &&& (data & (1u8 << 0u8) != 0) == (wa == 1)
        &&& (data & (1u8 << 1u8) != 0) == (wb == 2)
        &&& (data & (1u8 << 2u8) != 0) == (wc == 4)
        &&& (data & (1u8 << 3u8) != 0) == (wu == 8)
        &&& (data & (1u8 << 4u8) != 0) == (wd == 16)
        &&& (data & (1u8 << 5u8) != 0) == (wr == 32)
        &&& data & (1u8 << 6u8) == 0
        &&& data & (1u8 << 7u8) == 0
    }) by (bit_vector)
        requires
            data == wa | wb | wc | wu | wd | wr,
            wa == 0 || wa == 1,
            wb == 0 || wb == 2,
            wc == 0 || wc == 4,
            wu == 0 || wu == 8,
            wd == 0 || wd == 16,
            wr == 0 || wr == 32,
    ;
}

/// An immutable snapshot of the six buttons, one bit per button.
#[derive(Clone, Copy, Debug, PartialEq, Eq, Structural)]
pub struct ButtonsRaw {
    pub data: u8,
}

impl ButtonsRaw {
    pub fn a(&self) -> (pressed: bool)
        ensures
            pressed == bit_set(self.data, BIT_A),
    {
        self.data & (1u8 << 0u8) != 0
    }

    pub fn b(&self) -> (pressed: bool)
        ensures
            pressed == bit_set(self.data, BIT_B),
    {
        self.data & (1u8 << 1u8) != 0
    }

    pub fn c(&self) -> (pressed: bool)
        ensures
            pressed == bit_set(self.data, BIT_C),
    {
        self.data & (1u8 << 2u8) != 0
    }

    pub fn up(&self) -> (pressed: bool)
        ensures
            pressed == bit_set(self.data, BIT_UP),
    {
        self.data & (1u8 << 3u8) != 0
    }

    pub fn down(&self) -> (pressed: bool)
        ensures
            pressed == bit_set(self.data, BIT_DOWN),
    {
        self.data & (1u8 << 4u8) != 0
    }

    pub fn usr(&self) -> (pressed: bool)
        ensures
            pressed == bit_set(self.data, BIT_USR),
    {
        self.data & (1u8 << 5u8) != 0
    }
}

/// The edge on the user button's pad that means what `interrupt` means on the other five:
/// its polarity is reversed, so the falling edge is swapped for the rising one and anything
/// else for the falling one.
pub open spec fn swapped_edge(interrupt: Interrupt) -> Interrupt {
    if interrupt == Interrupt::EdgeLow {
        Interrupt::EdgeHigh
    } else {
        Interrupt::EdgeLow
    }
}

/// What a button bank is, as contracts see it.
pub struct ButtonsView {
    pub a: PinView,
    pub b: PinView,
    pub c: PinView,
    pub up: PinView,
    pub down: PinView,
    pub usr: PinView,
}

impl ButtonsView {
    /// Each pin is at the pad of its button and is an input: pulled down for the five
    /// buttons that connect to the supply, floating for the user button.
    pub open spec fn wired(self) -> bool {
        &&& self.a.index == PinName::SwA.pad()
        &&& self.b.index == PinName::SwB.pad()
        &&& self.c.index == PinName::SwC.pad()
        &&& self.up.index == PinName::SwUp.pad()
        &&& self.down.index == PinName::SwDown.pad()
        &&& self.usr.index == PinName::UserSw.pad()
        &&& self.a.mode == PinMode::Input(Pull::PullDown)
        &&& self.b.mode == PinMode::Input(Pull::PullDown)
        &&& self.c.mode == PinMode::Input(Pull::PullDown)
        &&& self.up.mode == PinMode::Input(Pull::PullDown)
        &&& self.down.mode == PinMode::Input(Pull::PullDown)
        &&& self.usr.mode == PinMode::Input(Pull::Floating)
    }

    /// The snapshot byte that sampling gives: a high level means pressed on the five
    /// pulled-down buttons, a low level means pressed on the user button.
    pub open spec fn snapshot(self) -> u8 {
        packed(
            self.a.level,
            self.b.level,
            self.c.level,
            self.up.level,
            self.down.level,
            !self.usr.level,
        )
    }

    /// The bank after `interrupt` was set to `enabled` on the five pulled-down buttons and
    /// the swapped edge on the user button.
    pub open spec fn interrupt_changed(self, interrupt: Interrupt, enabled: bool) -> ButtonsView {
        ButtonsView {
            a: self.a.set_interrupt(interrupt, enabled),
            b: self.b.set_interrupt(interrupt, enabled),
            c: self.c.set_interrupt(interrupt, enabled),
            up: self.up.set_interrupt(interrupt, enabled),
            down: self.down.set_interrupt(interrupt, enabled),
            usr: self.usr.set_interrupt(swapped_edge(interrupt), enabled),
        }
    }

    /// The bank after the level word of the GPIO bank was sampled.
    pub open spec fn latched(self, levels: u32) -> ButtonsView {
        ButtonsView {
            a: self.a.latched(levels),
            b: self.b.latched(levels),
            c: self.c.latched(levels),
            up: self.up.latched(levels),
            down: self.down.latched(levels),
            usr: self.usr.latched(levels),
        }
    }
}

/// The six buttons of the board.
pub struct Buttons {
    a: Pin,
    b: Pin,
    c: Pin,
    up: Pin,
    down: Pin,
    usr: Pin,
}

impl View for Buttons {
    type V = ButtonsView;

    closed spec fn view(&self) -> ButtonsView {
        ButtonsView {
            a: self.a@,
            b: self.b@,
            c: self.c@,
            up: self.up@,
            down: self.down@,
            usr: self.usr@,
        }
    }
}

impl Buttons {
    /// Makes the button bank from the six pins that the board wires to the buttons, in
    /// whatever mode they are: each is put into the input mode of its button. Pins of other
    /// pads are refused.
    pub fn new(a: Pin, b: Pin, c: Pin, up: Pin, down: Pin, usr: Pin) -> (made: Result<
        Buttons,
        PinError,
    >)
        ensures
            made is Ok <==> {
                &&& a@.index == PinName::SwA.pad()
                &&& b@.index == PinName::SwB.pad()
                &&& c@.index == PinName::SwC.pad()
                &&& up@.index == PinName::SwUp.pad()
                &&& down@.index == PinName::SwDown.pad()
                &&& usr@.index == PinName::UserSw.pad()
            },
            made matches Ok(buttons) ==> buttons@ == (ButtonsView {
                a: a@.into_mode(PinMode::Input(Pull::PullDown)),
                b: b@.into_mode(PinMode::Input(Pull::PullDown)),
                c: c@.into_mode(PinMode::Input(Pull::PullDown)),
                up: up@.into_mode(PinMode::Input(Pull::PullDown)),
                down: down@.into_mode(PinMode::Input(Pull::PullDown)),
                usr: usr@.into_mode(PinMode::Input(Pull::Floating)),
            }) && buttons@.wired(),
            made matches Err(error) ==> error == PinError::WrongPin,
    {
        if a.index() == PinName::SwA.index() && b.index() == PinName::SwB.index() && c.index()
            == PinName::SwC.index() && up.index() == PinName::SwUp.index() && down.index()
            == PinName::SwDown.index() && usr.index() == PinName::UserSw.index() {
            Ok(
                Buttons {
                    a: a.into_pull_down_input(),
                    b: b.into_pull_down_input(),
                    c: c.into_pull_down_input(),
                    up: up.into_pull_down_input(),
                    down: down.into_pull_down_input(),
                    usr: usr.into_floating_input(),
                },
            )
        } else {
            Err(PinError::WrongPin)
        }
    }

    /// The pin of button A.
    pub fn a(&self) -> (pin: &Pin)
        ensures
            pin@ == self@.a,
    {
        &self.a
    }

    /// The pin of button B.
    pub fn b(&self) -> (pin: &Pin)
        ensures
            pin@ == self@.b,
    {
        &self.b
    }

    /// The pin of button C.
    pub fn c(&self) -> (pin: &Pin)
        ensures
            pin@ == self@.c,
    {
        &self.c
    }

    /// The pin of the up button.
    pub fn up(&self) -> (pin: &Pin)
        ensures
            pin@ == self@.up,
    {
        &self.up
    }

    /// The pin of the down button.
    pub fn down(&self) -> (pin: &Pin)
        ensures
            pin@ == self@.down,
    {
        &self.down
    }

    /// The pin of the user button.
    pub fn usr(&self) -> (pin: &Pin)
        ensures
            pin@ == self@.usr,
    {
        &self.usr
    }

    /// Records the level of each button's pad from the level word of the GPIO bank. Modes
    /// and registers are kept.
    pub fn latch_levels(&mut self, levels: u32)
        requires
            old(self)@.wired(),
        ensures
            final(self)@ == old(self)@.latched(levels),
            final(self)@.wired(),
    {
        self.a.latch_from(levels);
        self.b.latch_from(levels);
        self.c.latch_from(levels);
        self.up.latch_from(levels);
        self.down.latch_from(levels);
        self.usr.latch_from(levels);
    }

    fn interrupt_change(&mut self, interrupt: Interrupt, enabled: bool)
        requires
            old(self)@.wired(),
        ensures
            final(self)@ == old(self)@.interrupt_changed(interrupt, enabled),
            final(self)@.wired(),
    {
        let _ = self.a.set_interrupt_enabled(interrupt, enabled);
        let _ = self.b.set_interrupt_enabled(interrupt, enabled);
        let _ = self.c.set_interrupt_enabled(interrupt, enabled);
        let _ = self.up.set_interrupt_enabled(interrupt, enabled);
        let _ = self.down.set_interrupt_enabled(interrupt, enabled);
        // Polarity of the user button is reversed, so the edge is swapped here.
        let interrupt_swap_edge = if interrupt == Interrupt::EdgeLow {
            Interrupt::EdgeHigh
        } else {
            Interrupt::EdgeLow
        };
        let _ = self.usr.set_interrupt_enabled(interrupt_swap_edge, enabled);
    }

    /// Enables the interrupt on button presses: the rising edge of the five pulled-down
    /// buttons and the falling edge of the user button.
    pub fn enable_interrupt_on_press(&mut self)
        requires
            old(self)@.wired(),
        ensures
            final(self)@ == old(self)@.interrupt_changed(Interrupt::EdgeHigh, true),
            final(self)@.wired(),
    {
        self.interrupt_change(Interrupt::EdgeHigh, true);
    }

    /// Disables the interrupt on button presses.
    pub fn disable_interrupt_on_press(&mut self)
        requires
            old(self)@.wired(),
        ensures
            final(self)@ == old(self)@.interrupt_changed(Interrupt::EdgeHigh, false),
            final(self)@.wired(),
    {
        self.interrupt_change(Interrupt::EdgeHigh, false);
    }

    /// Enables the interrupt on button releases: the falling edge of the five pulled-down
    /// buttons and the rising edge of the user button.
    pub fn enable_interrupt_on_release(&mut self)
        requires
            old(self)@.wired(),
        ensures
            final(self)@ == old(self)@.interrupt_changed(Interrupt::EdgeLow, true),
            final(self)@.wired(),
    {
        self.interrupt_change(Interrupt::EdgeLow, true);
    }

    /// Disables the interrupt on button releases.
    pub fn disable_interrupt_on_release(&mut self)
        requires
            old(self)@.wired(),
        ensures
            final(self)@ == old(self)@.interrupt_changed(Interrupt::EdgeLow, false),
            final(self)@.wired(),
    {
        self.interrupt_change(Interrupt::EdgeLow, false);
    }
}

/// Reads the state of all buttons from the levels last sampled at their pads and packs it
/// into a snapshot. The bank is not changed.
pub fn sample_buttons_raw(buttons: &Buttons) -> (raw: ButtonsRaw)
    requires
        buttons@.wired(),
    ensures
        raw.data == buttons@.snapshot(),
        bit_set(raw.data, BIT_A) == buttons@.a.level,
        bit_set(raw.data, BIT_B) == buttons@.b.level,
        bit_set(raw.data, BIT_C) == buttons@.c.level,
        bit_set(raw.data, BIT_UP) == buttons@.up.level,
        bit_set(raw.data, BIT_DOWN) == buttons@.down.level,
        bit_set(raw.data, BIT_USR) == !buttons@.usr.level,
        raw.data < 64,
{
    proof {
        lemma_packed_bits(
            buttons@.a.level,
            buttons@.b.level,
            buttons@.c.level,
            buttons@.up.level,
            buttons@.down.level,
            !buttons@.usr.level,
        );
    }
    let mut val: u8 = 0;
    // The reads cannot fail: every pin of the bank is an input.
    if buttons.a.is_high().unwrap() {
        val += 1;
    }
    if buttons.b.is_high().unwrap() {
        val += 2;
    }
    if buttons.c.is_high().unwrap() {
        val += 4;
    }
    if buttons.up.is_high().unwrap() {
        val += 8;
    }
    if buttons.down.is_high().unwrap() {
        val += 16;
    }
    // The user button's logic is inverted compared to the other buttons.
    if buttons.usr.is_low().unwrap() {
        val += 32;
    }
    ButtonsRaw { data: val }
}

/// Enabling or disabling an interrupt on the bank twice leaves it as doing so once does.
pub proof fn lemma_interrupt_change_idempotent(
    bank: ButtonsView,
    interrupt: Interrupt,
    enabled: bool,
)
    ensures
        bank.interrupt_changed(interrupt, enabled).interrupt_changed(interrupt, enabled)
            == bank.interrupt_changed(interrupt, enabled),
{
    lemma_set_interrupt_idempotent(bank.a, interrupt, enabled);
    lemma_set_interrupt_idempotent(bank.b, interrupt, enabled);
    lemma_set_interrupt_idempotent(bank.c, interrupt, enabled);
    lemma_set_interrupt_idempotent(bank.up, interrupt, enabled);
    lemma_set_interrupt_idempotent(bank.down, interrupt, enabled);
    lemma_set_interrupt_idempotent(bank.usr, swapped_edge(interrupt), enabled);
}

/// Changing interrupts and sampling levels keep every pin of the bank in its mode and at its
/// pad.
pub proof fn lemma_bank_keeps_modes(
    bank: ButtonsView,
    interrupt: Interrupt,
    enabled: bool,
    levels: u32,
)
    requires
        bank.wired(),
    ensures
        bank.interrupt_changed(interrupt, enabled).wired(),
        bank.latched(levels).wired(),
{
}

} // verus!

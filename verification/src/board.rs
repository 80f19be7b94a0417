//! The board as one value: clocks, pins, timer and the peripheral handles that are left.
//!
//! The board is taken from the peripheral token, so it can be had once. Between the take and
//! the finished board stands clock bring-up, which the driver performs step by step; no board
//! is handed out before its clocks are ready.

use vstd::prelude::*;

use crate::clocks::{
    realized, ClockAction, ClockError, ClockEvent, ClockTree, ClockTreeView, Clocks, Stage,
};
use crate::peripherals::{IoBank0, PadsBank0, PeripheralToken, Resets, Sio, Spi0, TimerBlock};
use crate::pins::{Pins, XOSC_CRYSTAL_FREQ};
use crate::timer::{Timer, TimerView};

verus! {

/// The initialized board.
pub struct Board {
    pub clocks: Clocks,
    pub pins: Pins,
    pub timer: Timer,
    pub resets: Resets,
    pub spi0: Spi0,
}

/// A board whose clocks are being brought up. Its view is that of its clock tree.
pub struct BringUp {
    tree: ClockTree,
    io_bank0: IoBank0,
    pads_bank0: PadsBank0,
    sio: Sio,
    timer: TimerBlock,
    resets: Resets,
    spi0: Spi0,
}

impl View for BringUp {
    type V = ClockTreeView;

    closed spec fn view(&self) -> ClockTreeView {
        self.tree@
    }
}

impl Board {
    /// Takes the peripherals and begins bring-up from the board's crystal. The first call on
    /// a token hands out the bring-up, every later call nothing; the token is empty after
    /// either.
    pub fn take(token: &mut PeripheralToken, poll_budget: u32) -> (begun: Option<BringUp>)
        ensures
            begun is Some <==> old(token)@ is Some,
            final(token)@ is None,
            begun matches Some(bring_up) ==> bring_up@ == ClockTreeView::initial(
                XOSC_CRYSTAL_FREQ,
                poll_budget,
            ),
    {
        match token.take() {
            Some(peripherals) => Some(
                BringUp {
                    tree: ClockTree::new(
                        XOSC_CRYSTAL_FREQ,
                        poll_budget,
                        peripherals.watchdog,
                        peripherals.xosc,
                        peripherals.clocks,
                        peripherals.pll_sys,
                        peripherals.pll_usb,
                    ),
                    io_bank0: peripherals.io_bank0,
                    pads_bank0: peripherals.pads_bank0,
                    sio: peripherals.sio,
                    timer: peripherals.timer,
                    resets: peripherals.resets,
                    spi0: peripherals.spi0,
                },
            ),
            None => None,
        }
    }
}

impl BringUp {
    /// The action that the driver is to perform now; none once the clocks are ready or
    /// bring-up has failed.
    pub fn pending(&self) -> (action: Option<ClockAction>)
        ensures
            action == self@.action(),
    {
        self.tree.pending()
    }

    /// Takes the driver's report on the pending action.
    pub fn advance(&mut self, event: ClockEvent)
        ensures
            final(self)@ == old(self)@.after(event),
    {
        self.tree.advance(event);
    }

    /// The error that bring-up has failed with, if it has.
    pub fn failure(&self) -> (error: Option<ClockError>)
        ensures
            error == match self@.stage {
                Stage::Failed(error) => Some(error),
                _ => None,
            },
    {
        match self.tree.stage() {
            Stage::Failed(error) => Some(error),
            _ => None,
        }
    }

    /// Hands out the board once the clocks are ready: its clocks are those realized from the
    /// crystal, its pins are as reset leaves them, and its timer counts from zero at the
    /// clocks' tick rate. While steps are still due, and after a failure, there is no board:
    /// the bring-up is handed back as it is.
    pub fn finish(self) -> (done: Result<Board, BringUp>)
        ensures
            done is Ok <==> self@.stage is Ready,
            done matches Ok(board) ==> {
                &&& board.clocks@ == realized(self@.crystal_hz)
                &&& board.clocks.crystal_hz() == self@.crystal_hz
                &&& board.pins.fresh()
                &&& board.timer@ == (TimerView { tick_hz: board.clocks@.tick_hz, counter: 0 })
            },
            done matches Err(bring_up) ==> bring_up@ == self@,
    {
        match self.tree.outcome() {
            Some(Ok(clocks)) => {
                let timer = Timer::new(self.timer, &clocks);
                Ok(
                    Board {
                        clocks,
                        pins: Pins::new(self.io_bank0, self.pads_bank0, self.sio),
                        timer,
                        resets: self.resets,
                        spi0: self.spi0,
                    },
                )
            },
            _ => Err(self),
        }
    }
}

} // verus!

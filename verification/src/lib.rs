//! Board support for the Pimoroni Badger 2040: exclusive peripheral ownership,
//! mode-tracked GPIO pins, clock bring-up, a countdown timer and the button bank.

pub mod board;
pub mod buttons;
pub mod clocks;
mod critical;
pub mod gpio;
pub mod peripherals;
pub mod pins;
pub mod timer;

pub use board::Board;
pub use buttons::{sample_buttons_raw, Buttons, ButtonsRaw};
pub use pins::{Pins, XOSC_CRYSTAL_FREQ};

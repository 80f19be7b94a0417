//! The board's pin table: which pad each named signal is wired to, and the pins by name.

use vstd::prelude::*;

use crate::gpio::{reset_registers, Function, Pin, PinMode, PinView};
use crate::peripherals::{IoBank0, PadsBank0, Sio};

verus! {

/// Frequency of the crystal on the board, in Hz.
pub const XOSC_CRYSTAL_FREQ: u32 = 12_000_000;

/// The signals that the board wires to a pad.
#[derive(Clone, Copy, Debug, PartialEq, Eq, Structural)]
pub enum PinName {
    Gpio0,
    Gpio1,
    I2cInt,
    Gpio4,
    Gpio5,
    P3v3En,
    SwDown,
    SwA,
    SwB,
    SwC,
    SwUp,
    Miso,
    InkyCsGpio,
    Sclk,
    Mosi,
    InkyDc,
    InkyRes,
    UserSw,
    /// Connected to the detection of bus voltage.
    VbusDetect,
    /// Connected to the activity LED.
    Led,
    InkyBusy,
    VrefPower,
    Vref1v24,
    /// Connected to the battery monitor.
    VbatSense,
}

/// The name that a pin goes by once it is routed to its peripheral.
#[derive(Clone, Copy, Debug, PartialEq, Eq, Structural)]
pub enum Alias {
    UartTx,
    UartRx,
    I2cSda,
    I2cScl,
    Miso,
    InkyCs,
    Sclk,
    Mosi,
}

impl PinName {
    /// The index of the pad that the signal is wired to.
    pub open spec fn pad(self) -> u8 {
        match self {
            PinName::Gpio0 => 0,
            PinName::Gpio1 => 1,
            PinName::I2cInt => 3,
            PinName::Gpio4 => 4,
            PinName::Gpio5 => 5,
            PinName::P3v3En => 10,
            PinName::SwDown => 11,
            PinName::SwA => 12,
            PinName::SwB => 13,
            PinName::SwC => 14,
            PinName::SwUp => 15,
            PinName::Miso => 16,
            PinName::InkyCsGpio => 17,
            PinName::Sclk => 18,
            PinName::Mosi => 19,
            PinName::InkyDc => 20,
            PinName::InkyRes => 21,
            PinName::UserSw => 23,
            PinName::VbusDetect => 24,
            PinName::Led => 25,
            PinName::InkyBusy => 26,
            PinName::VrefPower => 27,
            PinName::Vref1v24 => 28,
            PinName::VbatSense => 29,
        }
    }

    /// The peripheral function that the signal has an alias for, and the alias.
    pub open spec fn aliased(self) -> Option<(Function, Alias)> {
        match self {
            PinName::Gpio0 => Some((Function::Uart, Alias::UartTx)),
            PinName::Gpio1 => Some((Function::Uart, Alias::UartRx)),
            PinName::Gpio4 => Some((Function::I2c, Alias::I2cSda)),
            PinName::Gpio5 => Some((Function::I2c, Alias::I2cScl)),
            PinName::Miso => Some((Function::Spi, Alias::Miso)),
            PinName::InkyCsGpio => Some((Function::Spi, Alias::InkyCs)),
            PinName::Sclk => Some((Function::Spi, Alias::Sclk)),
            PinName::Mosi => Some((Function::Spi, Alias::Mosi)),
            _ => None,
        }
    }

    /// The index of the pad that the signal is wired to. It is on the bank.
    pub fn index(self) -> (index: u8)
        ensures
            index == self.pad(),
            index < crate::gpio::PIN_COUNT,
    {
        match self {
            PinName::Gpio0 => 0,
            PinName::Gpio1 => 1,
            PinName::I2cInt => 3,
            PinName::Gpio4 => 4,
            PinName::Gpio5 => 5,
            PinName::P3v3En => 10,
            PinName::SwDown => 11,
            PinName::SwA => 12,
            PinName::SwB => 13,
            PinName::SwC => 14,
            PinName::SwUp => 15,
            PinName::Miso => 16,
            PinName::InkyCsGpio => 17,
            PinName::Sclk => 18,
            PinName::Mosi => 19,
            PinName::InkyDc => 20,
            PinName::InkyRes => 21,
            PinName::UserSw => 23,
            PinName::VbusDetect => 24,
            PinName::Led => 25,
            PinName::InkyBusy => 26,
            PinName::VrefPower => 27,
            PinName::Vref1v24 => 28,
            PinName::VbatSense => 29,
        }
    }

    /// The signal that is wired to pad `index`, if the board wires one to it.
    pub fn at(index: u8) -> (name: Option<PinName>)
        ensures
            name matches Some(found) ==> found.pad() == index,
            name is None ==> forall|other: PinName| other.pad() != index,
    {
        match index {
            0 => Some(PinName::Gpio0),
            1 => Some(PinName::Gpio1),
            3 => Some(PinName::I2cInt),
            4 => Some(PinName::Gpio4),
            5 => Some(PinName::Gpio5),
            10 => Some(PinName::P3v3En),
            11 => Some(PinName::SwDown),
            12 => Some(PinName::SwA),
            13 => Some(PinName::SwB),
            14 => Some(PinName::SwC),
            15 => Some(PinName::SwUp),
            16 => Some(PinName::Miso),
            17 => Some(PinName::InkyCsGpio),
            18 => Some(PinName::Sclk),
            19 => Some(PinName::Mosi),
            20 => Some(PinName::InkyDc),
            21 => Some(PinName::InkyRes),
            23 => Some(PinName::UserSw),
            24 => Some(PinName::VbusDetect),
            25 => Some(PinName::Led),
            26 => Some(PinName::InkyBusy),
            27 => Some(PinName::VrefPower),
            28 => Some(PinName::Vref1v24),
            29 => Some(PinName::VbatSense),
            _ => None,
        }
    }

    /// The peripheral function that the signal has an alias for, and the alias; none for a
    /// signal that is only used as plain input or output.
    pub fn alias(self) -> (alias: Option<(Function, Alias)>)
        ensures
            alias == self.aliased(),
    {
        match self {
            PinName::Gpio0 => Some((Function::Uart, Alias::UartTx)),
            PinName::Gpio1 => Some((Function::Uart, Alias::UartRx)),
            PinName::Gpio4 => Some((Function::I2c, Alias::I2cSda)),
            PinName::Gpio5 => Some((Function::I2c, Alias::I2cScl)),
            PinName::Miso => Some((Function::Spi, Alias::Miso)),
            PinName::InkyCsGpio => Some((Function::Spi, Alias::InkyCs)),
            PinName::Sclk => Some((Function::Spi, Alias::Sclk)),
            PinName::Mosi => Some((Function::Spi, Alias::Mosi)),
            _ => None,
        }
    }
}

/// No two signals share a pad.
pub proof fn lemma_pads_distinct(first: PinName, second: PinName)
    requires
        first.pad() == second.pad(),
    ensures
        first == second,
{
}

impl PinView {
    /// The pin with index `index` as it is when the bank comes out of reset.
    pub open spec fn at_reset(index: u8) -> PinView {
        PinView {
            index,
            mode: PinMode::Alternate(Function::Null),
            registers: reset_registers(),
            level: false,
        }
    }
}

/// The board's pins, each under the name of its signal.
pub struct Pins {
    pub gpio0: Pin,
    pub gpio1: Pin,
    pub i2c_int: Pin,
    pub gpio4: Pin,
    pub gpio5: Pin,
    pub p3v3_en: Pin,
    pub sw_down: Pin,
    pub sw_a: Pin,
    pub sw_b: Pin,
    pub sw_c: Pin,
    pub sw_up: Pin,
    pub miso: Pin,
    pub inky_cs_gpio: Pin,
    pub sclk: Pin,
    pub mosi: Pin,
    pub inky_dc: Pin,
    pub inky_res: Pin,
    pub user_sw: Pin,
    pub vbus_detect: Pin,
    pub led: Pin,
    pub inky_busy: Pin,
    pub vref_power: Pin,
    pub vref_1v24: Pin,
    pub vbat_sense: Pin,
}

impl Pins {
    /// Every pin is at the pad that the table gives for its name and is as the bank's reset
    /// leaves it.
    pub open spec fn fresh(self) -> bool {
        &&& self.gpio0@ == PinView::at_reset(PinName::Gpio0.pad())
        &&& self.gpio1@ == PinView::at_reset(PinName::Gpio1.pad())
        &&& self.i2c_int@ == PinView::at_reset(PinName::I2cInt.pad())
        &&& self.gpio4@ == PinView::at_reset(PinName::Gpio4.pad())
        &&& self.gpio5@ == PinView::at_reset(PinName::Gpio5.pad())
        &&& self.p3v3_en@ == PinView::at_reset(PinName::P3v3En.pad())
        &&& self.sw_down@ == PinView::at_reset(PinName::SwDown.pad())
        &&& self.sw_a@ == PinView::at_reset(PinName::SwA.pad())
        &&& self.sw_b@ == PinView::at_reset(PinName::SwB.pad())
        &&& self.sw_c@ == PinView::at_reset(PinName::SwC.pad())
        &&& self.sw_up@ == PinView::at_reset(PinName::SwUp.pad())
        &&& self.miso@ == PinView::at_reset(PinName::Miso.pad())
        &&& self.inky_cs_gpio@ == PinView::at_reset(PinName::InkyCsGpio.pad())
        &&& self.sclk@ == PinView::at_reset(PinName::Sclk.pad())
        &&& self.mosi@ == PinView::at_reset(PinName::Mosi.pad())
        &&& self.inky_dc@ == PinView::at_reset(PinName::InkyDc.pad())
        &&& self.inky_res@ == PinView::at_reset(PinName::InkyRes.pad())
        &&& self.user_sw@ == PinView::at_reset(PinName::UserSw.pad())
        &&& self.vbus_detect@ == PinView::at_reset(PinName::VbusDetect.pad())
        &&& self.led@ == PinView::at_reset(PinName::Led.pad())
        &&& self.inky_busy@ == PinView::at_reset(PinName::InkyBusy.pad())
        &&& self.vref_power@ == PinView::at_reset(PinName::VrefPower.pad())
        &&& self.vref_1v24@ == PinView::at_reset(PinName::Vref1v24.pad())
        &&& self.vbat_sense@ == PinView::at_reset(PinName::VbatSense.pad())
    }

    /// The pin of a signal, as the bank's reset leaves it.
    fn pin(name: PinName) -> (pin: Pin)
        ensures
            pin@ == PinView::at_reset(name.pad()),
    {
        Pin::reset(name.index())
    }

    /// Takes over the GPIO bank's register blocks and hands out the board's pins, one for
    /// each signal in the table.
    pub fn new(io: IoBank0, pads: PadsBank0, sio: Sio) -> (pins: Pins)
        ensures
            pins.fresh(),
    {
        Pins {
            gpio0: Pins::pin(PinName::Gpio0),
            gpio1: Pins::pin(PinName::Gpio1),
            i2c_int: Pins::pin(PinName::I2cInt),
            gpio4: Pins::pin(PinName::Gpio4),
            gpio5: Pins::pin(PinName::Gpio5),
            p3v3_en: Pins::pin(PinName::P3v3En),
            sw_down: Pins::pin(PinName::SwDown),
            sw_a: Pins::pin(PinName::SwA),
            sw_b: Pins::pin(PinName::SwB),
            sw_c: Pins::pin(PinName::SwC),
            sw_up: Pins::pin(PinName::SwUp),
            miso: Pins::pin(PinName::Miso),
            inky_cs_gpio: Pins::pin(PinName::InkyCsGpio),
            sclk: Pins::pin(PinName::Sclk),
            mosi: Pins::pin(PinName::Mosi),
            inky_dc: Pins::pin(PinName::InkyDc),
            inky_res: Pins::pin(PinName::InkyRes),
            user_sw: Pins::pin(PinName::UserSw),
            vbus_detect: Pins::pin(PinName::VbusDetect),
            led: Pins::pin(PinName::Led),
            inky_busy: Pins::pin(PinName::InkyBusy),
            vref_power: Pins::pin(PinName::VrefPower),
            vref_1v24: Pins::pin(PinName::Vref1v24),
            vbat_sense: Pins::pin(PinName::VbatSense),
        }
    }
}

} // verus!

use pimoroni_badger2040::gpio::{
    Drive, Function, FunctionSelect, Interrupt, InterruptMask, Pin, PinError, PinMode,
    PinRegisters, Pull,
};
use pimoroni_badger2040::peripherals::PeripheralToken;
use pimoroni_badger2040::pins::{Alias, PinName};
use pimoroni_badger2040::Pins;

fn pins() -> Pins {
    let p = PeripheralToken::new().take().unwrap();
    Pins::new(p.io_bank0, p.pads_bank0, p.sio)
}

fn no_interrupts() -> InterruptMask {
    InterruptMask { level_low: false, level_high: false, edge_low: false, edge_high: false }
}

fn every_mode() -> Vec<PinMode> {
    vec![
        PinMode::Input(Pull::Floating),
        PinMode::Input(Pull::PullUp),
        PinMode::Input(Pull::PullDown),
        PinMode::Output(Drive::PushPull),
        PinMode::Output(Drive::OpenDrain),
        PinMode::Alternate(Function::Spi),
        PinMode::Alternate(Function::Null),
    ]
}

fn led_in(mode: PinMode) -> Pin {
    pins().led.into_mode(mode)
}

#[test]
fn pin_table_indices() {
    assert_eq!(PinName::Led.index(), 25);
    assert_eq!(PinName::SwA.index(), 12);
    assert_eq!(PinName::SwB.index(), 13);
    assert_eq!(PinName::SwC.index(), 14);
    assert_eq!(PinName::SwUp.index(), 15);
    assert_eq!(PinName::SwDown.index(), 11);
    assert_eq!(PinName::UserSw.index(), 23);
    assert_eq!(PinName::Sclk.index(), 18);
    assert_eq!(PinName::Mosi.index(), 19);
    assert_eq!(PinName::Gpio0.index(), 0);
    assert_eq!(PinName::VbatSense.index(), 29);
}

#[test]
fn pin_table_lookup_by_index() {
    assert_eq!(PinName::at(25), Some(PinName::Led));
    assert_eq!(PinName::at(12), Some(PinName::SwA));
    assert_eq!(PinName::at(3), Some(PinName::I2cInt));
    for unwired in [2u8, 6, 7, 8, 9, 22, 30, 31, 255] {
        assert_eq!(PinName::at(unwired), None);
    }
    let mut wired = 0;
    for index in 0..30u8 {
        if let Some(name) = PinName::at(index) {
            assert_eq!(name.index(), index);
            wired += 1;
        }
    }
    assert_eq!(wired, 24);
}

#[test]
fn pin_table_aliases() {
    assert_eq!(PinName::Sclk.alias(), Some((Function::Spi, Alias::Sclk)));
    assert_eq!(PinName::Mosi.alias(), Some((Function::Spi, Alias::Mosi)));
    assert_eq!(PinName::Miso.alias(), Some((Function::Spi, Alias::Miso)));
    assert_eq!(PinName::InkyCsGpio.alias(), Some((Function::Spi, Alias::InkyCs)));
    assert_eq!(PinName::Gpio0.alias(), Some((Function::Uart, Alias::UartTx)));
    assert_eq!(PinName::Gpio1.alias(), Some((Function::Uart, Alias::UartRx)));
    assert_eq!(PinName::Gpio4.alias(), Some((Function::I2c, Alias::I2cSda)));
    assert_eq!(PinName::Gpio5.alias(), Some((Function::I2c, Alias::I2cScl)));
    assert_eq!(PinName::Led.alias(), None);
    assert_eq!(PinName::SwA.alias(), None);
}

#[test]
fn pins_come_out_of_reset() {
    let pins = pins();
    assert_eq!(pins.led.index(), 25);
    assert_eq!(pins.sw_a.index(), 12);
    assert_eq!(pins.user_sw.index(), 23);
    assert_eq!(pins.gpio0.index(), 0);
    assert_eq!(pins.vbat_sense.index(), 29);
    assert_eq!(pins.led.mode(), PinMode::Alternate(Function::Null));
    assert_eq!(
        pins.led.registers(),
        PinRegisters {
            pull_up: false,
            pull_down: false,
            input_enable: true,
            output_disable: false,
            function: FunctionSelect::Peripheral(Function::Null),
            out_enable: false,
            out_level: false,
            interrupts: no_interrupts(),
        }
    );
    assert_eq!(pins.led.mask(), 1 << 25);
}

#[test]
fn push_pull_output_registers() {
    let led = pins().led.into_push_pull_output();
    assert_eq!(led.mode(), PinMode::Output(Drive::PushPull));
    assert_eq!(led.index(), 25);
    assert_eq!(
        led.registers(),
        PinRegisters {
            pull_up: false,
            pull_down: false,
            input_enable: false,
            output_disable: false,
            function: FunctionSelect::Sio,
            out_enable: true,
            out_level: false,
            interrupts: no_interrupts(),
        }
    );
}

#[test]
fn input_registers_follow_the_pull() {
    let up = pins().inky_busy.into_pull_up_input();
    assert_eq!(up.mode(), PinMode::Input(Pull::PullUp));
    assert_eq!(
        up.registers(),
        PinRegisters {
            pull_up: true,
            pull_down: false,
            input_enable: true,
            output_disable: true,
            function: FunctionSelect::Sio,
            out_enable: false,
            out_level: false,
            interrupts: no_interrupts(),
        }
    );
    let down = pins().sw_a.into_pull_down_input();
    assert_eq!(down.mode(), PinMode::Input(Pull::PullDown));
    assert!(down.registers().pull_down);
    assert!(!down.registers().pull_up);
    let floating = pins().user_sw.into_floating_input();
    assert_eq!(floating.mode(), PinMode::Input(Pull::Floating));
    assert!(!floating.registers().pull_down);
    assert!(!floating.registers().pull_up);
}

#[test]
fn alternate_function_registers() {
    let sclk = pins().sclk.into_alternate_function(Function::Spi);
    assert_eq!(sclk.mode(), PinMode::Alternate(Function::Spi));
    assert_eq!(
        sclk.registers(),
        PinRegisters {
            pull_up: false,
            pull_down: false,
            input_enable: true,
            output_disable: false,
            function: FunctionSelect::Peripheral(Function::Spi),
            out_enable: false,
            out_level: false,
            interrupts: no_interrupts(),
        }
    );
}

#[test]
fn every_mode_is_reachable_from_every_mode() {
    for from in every_mode() {
        for to in every_mode() {
            let pin = led_in(from).into_mode(to);
            assert_eq!(pin.mode(), to);
            assert_eq!(pin.index(), 25);
        }
    }
}

#[test]
fn writes_are_refused_unless_output() {
    for mode in every_mode() {
        let output = matches!(mode, PinMode::Output(_));
        let expected = if output { Ok(()) } else { Err(PinError::WrongMode) };
        let mut pin = led_in(mode);
        let before = pin.registers();
        assert_eq!(pin.set_high(), expected);
        if !output {
            assert_eq!(pin.registers(), before);
        }
        let mut pin = led_in(mode);
        assert_eq!(pin.set_low(), expected);
        if !output {
            assert_eq!(pin.registers(), before);
        }
        let mut pin = led_in(mode);
        assert_eq!(pin.toggle(), expected);
        if !output {
            assert_eq!(pin.registers(), before);
        }
        assert_eq!(pin.mode(), mode);
    }
}

#[test]
fn reads_and_interrupts_are_refused_unless_input() {
    for mode in every_mode() {
        let input = matches!(mode, PinMode::Input(_));
        let mut pin = led_in(mode);
        let before = pin.registers();
        if input {
            assert_eq!(pin.is_high(), Ok(false));
            assert_eq!(pin.is_low(), Ok(true));
            assert_eq!(pin.set_interrupt_enabled(Interrupt::EdgeHigh, true), Ok(()));
            assert!(pin.is_interrupt_enabled(Interrupt::EdgeHigh));
        } else {
            assert_eq!(pin.is_high(), Err(PinError::WrongMode));
            assert_eq!(pin.is_low(), Err(PinError::WrongMode));
            assert_eq!(
                pin.set_interrupt_enabled(Interrupt::EdgeHigh, true),
                Err(PinError::WrongMode)
            );
            assert!(!pin.is_interrupt_enabled(Interrupt::EdgeHigh));
            assert_eq!(pin.registers(), before);
        }
        assert_eq!(pin.mode(), mode);
    }
}

#[test]
fn push_pull_output_drives_the_latch() {
    let mut led = pins().led.into_push_pull_output();
    assert_eq!(led.set_high(), Ok(()));
    assert!(led.registers().out_level);
    assert!(led.registers().out_enable);
    assert_eq!(led.toggle(), Ok(()));
    assert!(!led.registers().out_level);
    assert_eq!(led.toggle(), Ok(()));
    assert!(led.registers().out_level);
    assert_eq!(led.set_low(), Ok(()));
    assert!(!led.registers().out_level);
    assert!(led.registers().out_enable);
}

#[test]
fn push_pull_output_keeps_the_latch_across_modes() {
    let mut led = pins().led.into_push_pull_output();
    assert_eq!(led.set_high(), Ok(()));
    let led = led.into_floating_input().into_push_pull_output();
    assert!(led.registers().out_level);
    assert!(led.registers().out_enable);
}

#[test]
fn open_drain_output_releases_the_line_for_high() {
    let mut pin = pins().gpio4.into_mode(PinMode::Output(Drive::OpenDrain));
    assert!(!pin.registers().out_enable);
    assert!(!pin.registers().out_level);
    assert_eq!(pin.set_low(), Ok(()));
    assert!(pin.registers().out_enable);
    assert!(!pin.registers().out_level);
    assert_eq!(pin.set_high(), Ok(()));
    assert!(!pin.registers().out_enable);
    assert!(!pin.registers().out_level);
    assert_eq!(pin.toggle(), Ok(()));
    assert!(pin.registers().out_enable);
    assert_eq!(pin.toggle(), Ok(()));
    assert!(!pin.registers().out_enable);
}

#[test]
fn open_drain_output_clears_a_high_latch() {
    let mut pin = pins().gpio4.into_push_pull_output();
    assert_eq!(pin.set_high(), Ok(()));
    let pin = pin.into_mode(PinMode::Output(Drive::OpenDrain));
    assert!(!pin.registers().out_level);
    assert!(!pin.registers().out_enable);
}

#[test]
fn input_reads_the_latched_level() {
    let mut pin = pins().sw_a.into_pull_down_input();
    assert_eq!(pin.is_high(), Ok(false));
    pin.latch_level(true);
    assert_eq!(pin.is_high(), Ok(true));
    assert_eq!(pin.is_low(), Ok(false));
    pin.latch_level(false);
    assert_eq!(pin.is_high(), Ok(false));
    assert_eq!(pin.is_low(), Ok(true));
    pin.latch_from(1 << 12);
    assert_eq!(pin.is_high(), Ok(true));
    pin.latch_from(!(1u32 << 12));
    assert_eq!(pin.is_high(), Ok(false));
    assert_eq!(pin.mode(), PinMode::Input(Pull::PullDown));
}

#[test]
fn interrupt_conditions_are_independent() {
    let mut pin = pins().sw_a.into_pull_down_input();
    assert_eq!(pin.set_interrupt_enabled(Interrupt::EdgeHigh, true), Ok(()));
    assert_eq!(pin.set_interrupt_enabled(Interrupt::LevelLow, true), Ok(()));
    assert_eq!(
        pin.registers().interrupts,
        InterruptMask { level_low: true, level_high: false, edge_low: false, edge_high: true }
    );
    assert_eq!(pin.set_interrupt_enabled(Interrupt::EdgeHigh, false), Ok(()));
    assert_eq!(
        pin.registers().interrupts,
        InterruptMask { level_low: true, level_high: false, edge_low: false, edge_high: false }
    );
    assert_eq!(pin.set_interrupt_enabled(Interrupt::EdgeLow, true), Ok(()));
    assert_eq!(pin.set_interrupt_enabled(Interrupt::LevelHigh, true), Ok(()));
    assert!(pin.is_interrupt_enabled(Interrupt::LevelLow));
    assert!(pin.is_interrupt_enabled(Interrupt::LevelHigh));
    assert!(pin.is_interrupt_enabled(Interrupt::EdgeLow));
    assert!(!pin.is_interrupt_enabled(Interrupt::EdgeHigh));
    assert_eq!(pin.mode(), PinMode::Input(Pull::PullDown));
    assert!(pin.registers().pull_down);
}

#[test]
fn interrupts_survive_mode_transitions() {
    let mut pin = pins().sw_a.into_pull_down_input();
    assert_eq!(pin.set_interrupt_enabled(Interrupt::EdgeLow, true), Ok(()));
    let pin = pin.into_push_pull_output().into_pull_up_input();
    assert!(pin.is_interrupt_enabled(Interrupt::EdgeLow));
}

#[test]
fn interrupt_mask_updates() {
    let mask = InterruptMask::none();
    assert_eq!(mask, no_interrupts());
    assert_eq!(mask.bits(), 0);
    let mask = mask.updated(Interrupt::LevelHigh, true).updated(Interrupt::EdgeHigh, true);
    assert!(mask.is_enabled(Interrupt::LevelHigh));
    assert!(mask.is_enabled(Interrupt::EdgeHigh));
    assert!(!mask.is_enabled(Interrupt::LevelLow));
    assert!(!mask.is_enabled(Interrupt::EdgeLow));
    assert_eq!(mask.bits(), 0b1010);
    assert_eq!(mask.updated(Interrupt::LevelLow, true).bits(), 0b1011);
    assert_eq!(mask.updated(Interrupt::EdgeLow, true).bits(), 0b1110);
    assert_eq!(mask.updated(Interrupt::LevelHigh, false).bits(), 0b1000);
}

#[test]
fn interrupt_word_of_a_pin() {
    let mut sw_a = pins().sw_a.into_pull_down_input();
    assert_eq!(sw_a.interrupt_word(), 1);
    assert_eq!(sw_a.interrupt_shift(), 16);
    assert_eq!(sw_a.merge_interrupts(0), 0);
    assert_eq!(sw_a.merge_interrupts(0xFFFF_FFFF), 0xFFF0_FFFF);
    assert_eq!(sw_a.set_interrupt_enabled(Interrupt::EdgeHigh, true), Ok(()));
    assert_eq!(sw_a.merge_interrupts(0), 0x0008_0000);
    assert_eq!(sw_a.merge_interrupts(0x1234_5678), 0x1238_5678);
    assert_eq!(sw_a.merge_interrupts(0xFFFF_FFFF), 0xFFF8_FFFF);
    let mut user = pins().user_sw.into_floating_input();
    assert_eq!(user.interrupt_word(), 2);
    assert_eq!(user.interrupt_shift(), 28);
    assert_eq!(user.set_interrupt_enabled(Interrupt::EdgeLow, true), Ok(()));
    assert_eq!(user.merge_interrupts(0), 0x4000_0000);
    let gpio0 = pins().gpio0;
    assert_eq!(gpio0.interrupt_word(), 0);
    assert_eq!(gpio0.interrupt_shift(), 0);
    let last = pins().vbat_sense;
    assert_eq!(last.interrupt_word(), 3);
    assert_eq!(last.interrupt_shift(), 20);
}

//! GPIO pins whose electrical mode is tracked in the pin value.
//!
//! A [`Pin`] owns the register fields of one pad: pad control, function select, the output
//! latch and output enable, and its four interrupt-enable bits. Its mode tag and those fields
//! always agree. Mode transitions consume the pin and hand back the reconfigured one; level
//! and interrupt operations are refused on a pin that is in another mode.

use vstd::prelude::*;

use crate::critical::{run_exclusive, Exclusive};

verus! {

/// Number of pins on the bank; pin indices run from 0 to 29.
pub const PIN_COUNT: u8 = 30;

/// Pull resistor of an input.
#[derive(Clone, Copy, Debug, PartialEq, Eq, Structural)]
pub enum Pull {
    Floating,
    PullUp,
    PullDown,
}

/// Output stage of an output.
#[derive(Clone, Copy, Debug, PartialEq, Eq, Structural)]
pub enum Drive {
    PushPull,
    OpenDrain,
}

/// Peripheral that a pad can be routed to.
#[derive(Clone, Copy, Debug, PartialEq, Eq, Structural)]
pub enum Function {
    Jtag,
    Spi,
    Uart,
    I2c,
    Pwm,
    Pio0,
    Pio1,
    Clock,
    Usb,
    Null,
}

/// Electrical mode of a pin.
#[derive(Clone, Copy, Debug, PartialEq, Eq, Structural)]
pub enum PinMode {
    Input(Pull),
    Output(Drive),
    Alternate(Function),
}

/// Value of a pad's function-select field.
#[derive(Clone, Copy, Debug, PartialEq, Eq, Structural)]
pub enum FunctionSelect {
    /// Software-controlled I/O: the pad follows the output latch and output enable.
    Sio,
    /// The pad is routed to a peripheral.
    Peripheral(Function),
}

/// Condition on a pad that can raise the bank interrupt.
#[derive(Clone, Copy, Debug, PartialEq, Eq, Structural)]
pub enum Interrupt {
    LevelLow,
    LevelHigh,
    EdgeLow,
    EdgeHigh,
}

/// The four interrupt-enable bits of one pin.
#[derive(Clone, Copy, Debug, PartialEq, Eq, Structural)]
pub struct InterruptMask {
    pub level_low: bool,
    pub level_high: bool,
    pub edge_low: bool,
    pub edge_high: bool,
}

/// Register fields that belong to one pin.
#[derive(Clone, Copy, Debug, PartialEq, Eq, Structural)]
pub struct PinRegisters {
    /// Pad control: pull-up enable.
    pub pull_up: bool,
    /// Pad control: pull-down enable.
    pub pull_down: bool,
    /// Pad control: input enable.
    pub input_enable: bool,
    /// Pad control: output disable.
    pub output_disable: bool,
    /// Function select.
    pub function: FunctionSelect,
    /// Output enable bit.
    pub out_enable: bool,
    /// Output latch bit.
    pub out_level: bool,
    /// Interrupt-enable bits.
    pub interrupts: InterruptMask,
}

/// Why a pin operation was refused.
#[derive(Clone, Copy, Debug, PartialEq, Eq, Structural)]
pub enum PinError {
    /// The pin is not in the mode that the operation needs.
    WrongMode,
    /// The pin is not the one that the board wires to this place.
    WrongPin,
}

/// Operations that depend on the mode of the pin.
#[derive(Clone, Copy, Debug, PartialEq, Eq, Structural)]
pub enum Operation {
    SetHigh,
    SetLow,
    Toggle,
    IsHigh,
    IsLow,
    SetInterruptEnabled,
}

/// Whether a pin in `mode` accepts `op`: outputs accept the three writes, inputs the two
/// reads and interrupt configuration, and a pad routed to a peripheral accepts none.
pub open spec fn accepts(mode: PinMode, op: Operation) -> bool {
    match op {
        Operation::SetHigh | Operation::SetLow | Operation::Toggle => mode is Output,
        Operation::IsHigh | Operation::IsLow | Operation::SetInterruptEnabled => mode is Input,
    }
}

/// Whether bit `position` of `word` is set.
pub open spec fn word_bit(word: u32, position: u32) -> bool {
    (word >> position) & 1 == 1
}

impl Interrupt {
    /// Position of the condition's bit within the four interrupt bits of a pin.
    pub open spec fn offset(self) -> u32 {
        match self {
            Interrupt::LevelLow => 0,
            Interrupt::LevelHigh => 1,
            Interrupt::EdgeLow => 2,
            Interrupt::EdgeHigh => 3,
        }
    }
}

impl InterruptMask {
    /// Whether `condition` is enabled.
    pub open spec fn enabled(self, condition: Interrupt) -> bool {
        match condition {
            Interrupt::LevelLow => self.level_low,
            Interrupt::LevelHigh => self.level_high,
            Interrupt::EdgeLow => self.edge_low,
            Interrupt::EdgeHigh => self.edge_high,
        }
    }

    /// The mask with `condition` set to `enabled` and the other three bits kept.
    pub open spec fn with(self, condition: Interrupt, enabled: bool) -> InterruptMask {
        match condition {
            Interrupt::LevelLow => InterruptMask { level_low: enabled, ..self },
            Interrupt::LevelHigh => InterruptMask { level_high: enabled, ..self },
            Interrupt::EdgeLow => InterruptMask { edge_low: enabled, ..self },
            Interrupt::EdgeHigh => InterruptMask { edge_high: enabled, ..self },
        }
    }

    /// The mask with no condition enabled.
    pub open spec fn empty() -> InterruptMask {
        InterruptMask { level_low: false, level_high: false, edge_low: false, edge_high: false }
    }

    /// The mask with no condition enabled.
    pub fn none() -> (mask: InterruptMask)
        ensures
            mask == InterruptMask::empty(),
    {
        InterruptMask { level_low: false, level_high: false, edge_low: false, edge_high: false }
    }

    pub fn is_enabled(&self, condition: Interrupt) -> (on: bool)
        ensures
            on == self.enabled(condition),
    {
        match condition {
            Interrupt::LevelLow => self.level_low,
            Interrupt::LevelHigh => self.level_high,
            Interrupt::EdgeLow => self.edge_low,
            Interrupt::EdgeHigh => self.edge_high,
        }
    }

    pub fn updated(self, condition: Interrupt, enabled: bool) -> (mask: InterruptMask)
        ensures
            mask == self.with(condition, enabled),
    {
        let mut mask = self;
        match condition {
            Interrupt::LevelLow => {
                mask.level_low = enabled;
            },
            Interrupt::LevelHigh => {
                mask.level_high = enabled;
            },
            Interrupt::EdgeLow => {
                mask.edge_low = enabled;
            },
            Interrupt::EdgeHigh => {
                mask.edge_high = enabled;
            },
        }
        mask
    }

    /// The four bits as they stand in an interrupt-enable word, lowest first: level low,
    /// level high, edge low, edge high.
    pub fn bits(&self) -> (bits: u32)
        ensures
            bits < 16,
            forall|condition: Interrupt|
                word_bit(bits, condition.offset()) == #[trigger] self.enabled(condition),
    {
        let b0: u32 = if self.level_low { 1 } else { 0 };
        let b1: u32 = if self.level_high { 2 } else { 0 };
        let b2: u32 = if self.edge_low { 4 } else { 0 };
        let b3: u32 = if self.edge_high { 8 } else { 0 };
        let bits = b0 | b1 | b2 | b3;
        assert(bits < 16 && (((bits >> 0u32) & 1 == 1) == (b0 == 1)) && (((bits >> 1u32) & 1 == 1)
            == (b1 == 2)) && (((bits >> 2u32) & 1 == 1) == (b2 == 4)) && (((bits >> 3u32) & 1 == 1)
            == (b3 == 8))) by (bit_vector)
            requires
                bits == b0 | b1 | b2 | b3,
                b0 == 0 || b0 == 1,
                b1 == 0 || b1 == 2,
                b2 == 0 || b2 == 4,
                b3 == 0 || b3 == 8,
        ;
        assert forall|condition: Interrupt|
            word_bit(bits, condition.offset()) == #[trigger] self.enabled(condition) by {
            match condition {
                Interrupt::LevelLow => {},
                Interrupt::LevelHigh => {},
                Interrupt::EdgeLow => {},
                Interrupt::EdgeHigh => {},
            }
        }
        bits
    }
}

/// Whether the register fields are those that `mode` calls for.
pub open spec fn coherent(mode: PinMode, registers: PinRegisters) -> bool {
    match mode {
        PinMode::Input(pull) => {
            &&& registers.function == FunctionSelect::Sio
            &&& registers.input_enable
            &&& registers.output_disable
            &&& !registers.out_enable
            &&& registers.pull_up == (pull == Pull::PullUp)
            &&& registers.pull_down == (pull == Pull::PullDown)
        },
        PinMode::Output(drive) => {
            &&& registers.function == FunctionSelect::Sio
            &&& !registers.input_enable
            &&& !registers.output_disable
            &&& !registers.pull_up
            &&& !registers.pull_down
            &&& drive == Drive::PushPull ==> registers.out_enable
            &&& drive == Drive::OpenDrain ==> !registers.out_level
        },
        PinMode::Alternate(function) => {
            &&& registers.function == FunctionSelect::Peripheral(function)
            &&& registers.input_enable
            &&& !registers.output_disable
            &&& !registers.out_enable
            &&& !registers.pull_up
            &&& !registers.pull_down
        },
    }
}

/// The register fields after the pad control, function select and output enable have been
/// written for `mode`. The interrupt-enable bits are kept. The output latch is kept, except
/// that an open-drain output starts with the latch low and the line released.
pub open spec fn configured(mode: PinMode, before: PinRegisters) -> PinRegisters {
    match mode {
        PinMode::Input(pull) => PinRegisters {
            pull_up: pull == Pull::PullUp,
            pull_down: pull == Pull::PullDown,
            input_enable: true,
            output_disable: true,
            function: FunctionSelect::Sio,
            out_enable: false,
            out_level: before.out_level,
            interrupts: before.interrupts,
        },
        PinMode::Output(drive) => PinRegisters {
            pull_up: false,
            pull_down: false,
            input_enable: false,
            output_disable: false,
            function: FunctionSelect::Sio,
            out_enable: drive == Drive::PushPull,
            out_level: drive == Drive::PushPull && before.out_level,
            interrupts: before.interrupts,
        },
        PinMode::Alternate(function) => PinRegisters {
            pull_up: false,
            pull_down: false,
            input_enable: true,
            output_disable: false,
            function: FunctionSelect::Peripheral(function),
            out_enable: false,
            out_level: before.out_level,
            interrupts: before.interrupts,
        },
    }
}

/// The register fields of a pin when the bank comes out of reset: routed to no peripheral,
/// latch low, no interrupt enabled.
pub open spec fn reset_registers() -> PinRegisters {
    PinRegisters {
        pull_up: false,
        pull_down: false,
        input_enable: true,
        output_disable: false,
        function: FunctionSelect::Peripheral(Function::Null),
        out_enable: false,
        out_level: false,
        interrupts: InterruptMask::empty(),
    }
}

/// Whether an output with these register fields drives or releases its line high. A push-pull
/// output follows the latch; an open-drain output is high when it does not drive.
pub open spec fn drives_high(drive: Drive, registers: PinRegisters) -> bool {
    match drive {
        Drive::PushPull => registers.out_level,
        Drive::OpenDrain => !registers.out_enable,
    }
}

/// The register fields of an output after its line has been set to `high`: one bit changes
/// at most, the latch of a push-pull output or the output enable of an open-drain output.
pub open spec fn driving(drive: Drive, registers: PinRegisters, high: bool) -> PinRegisters {
    match drive {
        Drive::PushPull => PinRegisters { out_level: high, ..registers },
        Drive::OpenDrain => PinRegisters { out_enable: !high, ..registers },
    }
}

/// Whether the bit of pin `index` is set in a bank-wide word.
pub open spec fn level_bit(word: u32, index: u8) -> bool {
    word & (1u32 << (index as u32)) != 0
}

/// What a pin is, as contracts see it.
pub struct PinView {
    pub index: u8,
    pub mode: PinMode,
    pub registers: PinRegisters,
    /// The electrical level last sampled at the pad.
    pub level: bool,
}

impl PinView {
    /// The pin after a transition into `mode`.
    pub open spec fn into_mode(self, mode: PinMode) -> PinView {
        PinView { mode, registers: configured(mode, self.registers), ..self }
    }

    /// The pin after its line was set to `high`; unchanged if it is no output.
    pub open spec fn set_output(self, high: bool) -> PinView {
        match self.mode {
            PinMode::Output(drive) => PinView {
                registers: driving(drive, self.registers, high),
                ..self
            },
            _ => self,
        }
    }

    /// The pin after its level was taken from the level word of the bank: bit `index` of
    /// the word.
    pub open spec fn latched(self, levels: u32) -> PinView {
        PinView { level: level_bit(levels, self.index), ..self }
    }

    /// Whether the pin is an output whose line is high.
    pub open spec fn output_high(self) -> bool {
        self.mode matches PinMode::Output(drive) && drives_high(drive, self.registers)
    }

    /// The pin after `condition` was set to `enabled`; unchanged if it is no input.
    pub open spec fn set_interrupt(self, condition: Interrupt, enabled: bool) -> PinView {
        if self.mode is Input {
            PinView {
                registers: PinRegisters {
                    interrupts: self.registers.interrupts.with(condition, enabled),
                    ..self.registers
                },
                ..self
            }
        } else {
            self
        }
    }

    /// Mode tag and register fields agree, and the index is on the bank.
    pub open spec fn valid(self) -> bool {
        self.index < PIN_COUNT && coherent(self.mode, self.registers)
    }
}

/// Setting an interrupt condition twice to the same value leaves a pin as setting it once
/// does.
pub proof fn lemma_set_interrupt_idempotent(pin: PinView, condition: Interrupt, enabled: bool)
    ensures
        pin.set_interrupt(condition, enabled).set_interrupt(condition, enabled)
            == pin.set_interrupt(condition, enabled),
        pin.set_interrupt(condition, enabled).mode == pin.mode,
        pin.set_interrupt(condition, enabled).index == pin.index,
        pin.set_interrupt(condition, enabled).level == pin.level,
{
}

/// After a transition into a mode the pin is in that mode, its register fields are those
/// that the mode calls for, and it accepts the operations of that mode and no others: an
/// output the three writes, an input the two reads and interrupt configuration, a pad routed
/// to a peripheral none. This holds from every mode that the pin was in before.
pub proof fn lemma_transition_fixes_operations(before: PinView, mode: PinMode, op: Operation)
    ensures
        before.into_mode(mode).mode == mode,
        before.into_mode(mode).index == before.index,
        coherent(mode, before.into_mode(mode).registers),
        accepts(before.into_mode(mode).mode, op) <==> match op {
            Operation::SetHigh | Operation::SetLow | Operation::Toggle => mode is Output,
            Operation::IsHigh | Operation::IsLow | Operation::SetInterruptEnabled => mode is Input,
        },
        mode is Alternate ==> !accepts(before.into_mode(mode).mode, op),
        before.into_mode(mode).valid() <==> before.index < PIN_COUNT,
{
}

/// A write to an output changes nothing but its line, and an operation that the pin's mode
/// does not accept changes nothing at all.
pub proof fn lemma_operations_keep_mode(pin: PinView, high: bool, condition: Interrupt, on: bool)
    requires
        pin.valid(),
    ensures
        pin.set_output(high).valid(),
        pin.set_output(high).mode == pin.mode,
        pin.mode is Output ==> (pin.set_output(high).output_high() <==> high),
        !(pin.mode is Output) ==> pin.set_output(high) == pin,
        pin.set_interrupt(condition, on).valid(),
        pin.set_interrupt(condition, on).mode == pin.mode,
        pin.mode is Input ==> pin.set_interrupt(condition, on).registers.interrupts.enabled(
            condition,
        ) == on,
        !(pin.mode is Input) ==> pin.set_interrupt(condition, on) == pin,
{
}

/// One physical GPIO line.
pub struct Pin {
    index: u8,
    mode: PinMode,
    registers: PinRegisters,
    level: bool,
}

impl View for Pin {
    type V = PinView;

    closed spec fn view(&self) -> PinView {
        PinView { index: self.index, mode: self.mode, registers: self.registers, level: self.level }
    }
}

/// Rewrites pad control and function select for a new mode.
struct Configure {
    mode: PinMode,
}

impl Exclusive<Pin> for Configure {
    type Output = ();

    closed spec fn effect(&self, before: Pin, after: Pin, out: ()) -> bool {
        after@ == before@.into_mode(self.mode)
    }

    fn run(&self, state: &mut Pin) -> (out: ()) {
        let before = state.registers;
        let registers = match self.mode {
            PinMode::Input(pull) => PinRegisters {
                pull_up: matches!(pull, Pull::PullUp),
                pull_down: matches!(pull, Pull::PullDown),
                input_enable: true,
                output_disable: true,
                function: FunctionSelect::Sio,
                out_enable: false,
                out_level: before.out_level,
                interrupts: before.interrupts,
            },
            PinMode::Output(drive) => {
                let push_pull = matches!(drive, Drive::PushPull);
                PinRegisters {
                    pull_up: false,
                    pull_down: false,
                    input_enable: false,
                    output_disable: false,
                    function: FunctionSelect::Sio,
                    out_enable: push_pull,
                    out_level: push_pull && before.out_level,
                    interrupts: before.interrupts,
                }
            },
            PinMode::Alternate(function) => PinRegisters {
                pull_up: false,
                pull_down: false,
                input_enable: true,
                output_disable: false,
                function: FunctionSelect::Peripheral(function),
                out_enable: false,
                out_level: before.out_level,
                interrupts: before.interrupts,
            },
        };
        proof {
            use_type_invariant(&*state);
        }
        *state = Pin { index: state.index, mode: self.mode, registers, level: state.level };
    }
}

/// Rewrites one interrupt-enable bit of an input.
struct ConfigureInterrupt {
    condition: Interrupt,
    enabled: bool,
}

impl Exclusive<Pin> for ConfigureInterrupt {
    type Output = Result<(), PinError>;

    closed spec fn effect(&self, before: Pin, after: Pin, out: Result<(), PinError>) -> bool {
        &&& after@ == before@.set_interrupt(self.condition, self.enabled)
        &&& out == if before@.mode is Input {
            Ok::<(), PinError>(())
        } else {
            Err::<(), PinError>(PinError::WrongMode)
        }
    }

    fn run(&self, state: &mut Pin) -> (out: Result<(), PinError>) {
        match state.mode {
            PinMode::Input(_) => {
                let interrupts = state.registers.interrupts.updated(self.condition, self.enabled);
                proof {
                    use_type_invariant(&*state);
                }
                state.registers.interrupts = interrupts;
                Ok(())
            },
            _ => Err(PinError::WrongMode),
        }
    }
}

impl Pin {
    #[verifier::type_invariant]
    spec fn well_formed(self) -> bool {
        self.index < PIN_COUNT && coherent(self.mode, self.registers)
    }

    /// The pin as it is when the bank comes out of reset: routed to no peripheral, latch
    /// low, no interrupt enabled.
    pub(crate) fn reset(index: u8) -> (pin: Pin)
        requires
            index < PIN_COUNT,
        ensures
            pin@.index == index,
            pin@.mode == PinMode::Alternate(Function::Null),
            pin@.registers == reset_registers(),
            !pin@.level,
    {
        Pin {
            index,
            mode: PinMode::Alternate(Function::Null),
            registers: PinRegisters {
                pull_up: false,
                pull_down: false,
                input_enable: true,
                output_disable: false,
                function: FunctionSelect::Peripheral(Function::Null),
                out_enable: false,
                out_level: false,
                interrupts: InterruptMask::none(),
            },
            level: false,
        }
    }

    /// The pin's index on the bank.
    pub fn index(&self) -> (index: u8)
        ensures
            index == self@.index,
            index < PIN_COUNT,
    {
        proof {
            use_type_invariant(self);
        }
        self.index
    }

    /// The pin's bit in the bank-wide level, output and output-enable words.
    pub fn mask(&self) -> (mask: u32)
        ensures
            mask == 1u32 << (self@.index as u32),
    {
        proof {
            use_type_invariant(self);
        }
        1u32 << (self.index as u32)
    }

    pub fn mode(&self) -> (mode: PinMode)
        ensures
            mode == self@.mode,
    {
        self.mode
    }

    /// The register fields that the hardware is to hold for this pin.
    pub fn registers(&self) -> (registers: PinRegisters)
        ensures
            registers == self@.registers,
            coherent(self@.mode, registers),
    {
        proof {
            use_type_invariant(self);
        }
        self.registers
    }

    /// Records the electrical level that was sampled at the pad. Nothing else changes.
    pub fn latch_level(&mut self, level: bool)
        ensures
            final(self)@ == (PinView { level, ..old(self)@ }),
    {
        proof {
            use_type_invariant(&*self);
        }
        self.level = level;
    }

    /// Records the level of this pin's pad from the level word of the bank. Nothing else
    /// changes.
    pub fn latch_from(&mut self, levels: u32)
        ensures
            final(self)@ == old(self)@.latched(levels),
    {
        proof {
            use_type_invariant(&*self);
        }
        self.level = levels & (1u32 << (self.index as u32)) != 0;
    }

    /// Which of the bank's four interrupt-enable words holds this pin's bits: eight pins
    /// share a word.
    pub fn interrupt_word(&self) -> (word: usize)
        ensures
            word == self@.index / 8,
            word < 4,
    {
        proof {
            use_type_invariant(self);
        }
        (self.index / 8) as usize
    }

    /// Position of this pin's lowest interrupt bit in its interrupt-enable word: four bits
    /// per pin.
    pub fn interrupt_shift(&self) -> (shift: u32)
        ensures
            shift == 4 * (self@.index % 8),
            shift <= 28,
    {
        proof {
            use_type_invariant(self);
        }
        4 * ((self.index % 8) as u32)
    }

    /// The interrupt-enable word `word` with this pin's four bits replaced by its mask. The
    /// bits of the seven other pins in the word are kept.
    pub fn merge_interrupts(&self, word: u32) -> (merged: u32)
        ensures
            forall|condition: Interrupt|
                word_bit(merged, (4 * (self@.index % 8) + condition.offset()) as u32)
                    == #[trigger] self@.registers.interrupts.enabled(condition),
            forall|position: u32|
                position < 32 && !(4 * (self@.index % 8) <= position < 4 * (self@.index % 8) + 4)
                    ==> #[trigger] word_bit(merged, position) == word_bit(word, position),
    {
        let shift = self.interrupt_shift();
        let bits = self.registers.interrupts.bits();
        let merged = (word & !(0xFu32 << shift)) | (bits << shift);
        assert(forall|position: u32|
            position < 32 && !(shift <= position && position < shift + 4) ==> #[trigger] ((merged
                >> position) & 1) == (word >> position) & 1) by (bit_vector)
            requires
                merged == (word & !(0xFu32 << shift)) | (bits << shift),
                bits < 16,
                shift <= 28,
        ;
        assert(forall|offset: u32|
            offset < 4 ==> #[trigger] ((merged >> ((shift + offset) as u32)) & 1) == (bits
                >> offset) & 1) by (bit_vector)
            requires
                merged == (word & !(0xFu32 << shift)) | (bits << shift),
                bits < 16,
                shift <= 28,
        ;
        assert forall|condition: Interrupt|
            word_bit(merged, (4 * (self@.index % 8) + condition.offset()) as u32)
                == #[trigger] self@.registers.interrupts.enabled(condition) by {
            let offset = condition.offset();
            assert(offset < 4);
            assert(((merged >> ((shift + offset) as u32)) & 1) == (bits >> offset) & 1);
            assert(word_bit(bits, offset) == self.registers.interrupts.enabled(condition));
        }
        merged
    }

    /// Puts the pin into `mode`, from whatever mode it is in. Only this pin's pad control,
    /// function select and output enable are rewritten; the write runs with interrupts masked.
    pub fn into_mode(self, mode: PinMode) -> (pin: Pin)
        ensures
            pin@ == self@.into_mode(mode),
            pin@.mode == mode,
            pin@.index == self@.index,
            pin@.level == self@.level,
            pin@.registers.interrupts == self@.registers.interrupts,
    {
        let mut pin = self;
        run_exclusive(&Configure { mode }, &mut pin);
        pin
    }

    pub fn into_push_pull_output(self) -> (pin: Pin)
        ensures
            pin@ == self@.into_mode(PinMode::Output(Drive::PushPull)),
    {
        self.into_mode(PinMode::Output(Drive::PushPull))
    }

    pub fn into_pull_up_input(self) -> (pin: Pin)
        ensures
            pin@ == self@.into_mode(PinMode::Input(Pull::PullUp)),
    {
        self.into_mode(PinMode::Input(Pull::PullUp))
    }

    pub fn into_pull_down_input(self) -> (pin: Pin)
        ensures
            pin@ == self@.into_mode(PinMode::Input(Pull::PullDown)),
    {
        self.into_mode(PinMode::Input(Pull::PullDown))
    }

    pub fn into_floating_input(self) -> (pin: Pin)
        ensures
            pin@ == self@.into_mode(PinMode::Input(Pull::Floating)),
    {
        self.into_mode(PinMode::Input(Pull::Floating))
    }

    pub fn into_alternate_function(self, function: Function) -> (pin: Pin)
        ensures
            pin@ == self@.into_mode(PinMode::Alternate(function)),
    {
        self.into_mode(PinMode::Alternate(function))
    }

    /// Sets the line of an output to `high`.
    fn write(&mut self, high: bool) -> (done: Result<(), PinError>)
        ensures
            done is Ok <==> old(self)@.mode is Output,
            done is Err ==> done == Err::<(), PinError>(PinError::WrongMode),
            final(self)@ == old(self)@.set_output(high),
            done is Ok ==> (final(self)@.output_high() <==> high),
    {
        proof {
            use_type_invariant(&*self);
        }
        match self.mode {
            PinMode::Output(Drive::PushPull) => {
                self.registers.out_level = high;
                Ok(())
            },
            PinMode::Output(Drive::OpenDrain) => {
                self.registers.out_enable = !high;
                Ok(())
            },
            _ => Err(PinError::WrongMode),
        }
    }

    /// Drives the line of an output high. A pin in another mode is left as it is.
    pub fn set_high(&mut self) -> (done: Result<(), PinError>)
        ensures
            done is Ok <==> accepts(old(self)@.mode, Operation::SetHigh),
            done is Err ==> done == Err::<(), PinError>(PinError::WrongMode),
            final(self)@ == old(self)@.set_output(true),
            done is Ok ==> final(self)@.output_high(),
    {
        self.write(true)
    }

    /// Drives the line of an output low. A pin in another mode is left as it is.
    pub fn set_low(&mut self) -> (done: Result<(), PinError>)
        ensures
            done is Ok <==> accepts(old(self)@.mode, Operation::SetLow),
            done is Err ==> done == Err::<(), PinError>(PinError::WrongMode),
            final(self)@ == old(self)@.set_output(false),
            done is Ok ==> !final(self)@.output_high(),
    {
        self.write(false)
    }

    /// Inverts the line of an output. A pin in another mode is left as it is.
    pub fn toggle(&mut self) -> (done: Result<(), PinError>)
        ensures
            done is Ok <==> accepts(old(self)@.mode, Operation::Toggle),
            done is Err ==> done == Err::<(), PinError>(PinError::WrongMode),
            final(self)@ == old(self)@.set_output(!old(self)@.output_high()),
            done is Ok ==> (final(self)@.output_high() <==> !old(self)@.output_high()),
    {
        let high = match self.mode {
            PinMode::Output(Drive::PushPull) => self.registers.out_level,
            PinMode::Output(Drive::OpenDrain) => !self.registers.out_enable,
            _ => false,
        };
        self.write(!high)
    }

    /// Whether the level sampled at the pad of an input is high.
    pub fn is_high(&self) -> (level: Result<bool, PinError>)
        ensures
            level is Ok <==> accepts(self@.mode, Operation::IsHigh),
            level is Ok ==> level == Ok::<bool, PinError>(self@.level),
            level is Err ==> level == Err::<bool, PinError>(PinError::WrongMode),
    {
        match self.mode {
            PinMode::Input(_) => Ok(self.level),
            _ => Err(PinError::WrongMode),
        }
    }

    /// Whether the level sampled at the pad of an input is low.
    pub fn is_low(&self) -> (level: Result<bool, PinError>)
        ensures
            level is Ok <==> accepts(self@.mode, Operation::IsLow),
            level is Ok ==> level == Ok::<bool, PinError>(!self@.level),
            level is Err ==> level == Err::<bool, PinError>(PinError::WrongMode),
    {
        match self.mode {
            PinMode::Input(_) => Ok(!self.level),
            _ => Err(PinError::WrongMode),
        }
    }

    /// Sets whether `condition` on an input raises the bank interrupt. The other three
    /// conditions and the rest of the pin are kept; a pin in another mode is left as it is.
    /// The write runs with interrupts masked.
    pub fn set_interrupt_enabled(&mut self, condition: Interrupt, enabled: bool) -> (done: Result<
        (),
        PinError,
    >)
        ensures
            done is Ok <==> accepts(old(self)@.mode, Operation::SetInterruptEnabled),
            done is Err ==> done == Err::<(), PinError>(PinError::WrongMode),
            final(self)@ == old(self)@.set_interrupt(condition, enabled),
    {
        proof {
            use_type_invariant(&*self);
        }
        run_exclusive(&ConfigureInterrupt { condition, enabled }, self)
    }

    /// Whether `condition` on this pin raises the bank interrupt.
    pub fn is_interrupt_enabled(&self, condition: Interrupt) -> (on: bool)
        ensures
            on == self@.registers.interrupts.enabled(condition),
    {
        self.registers.interrupts.is_enabled(condition)
    }
}

} // verus!

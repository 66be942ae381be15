//! Global peripheral: the configuration word of one GPIO pin.
use vstd::prelude::*;
use crate::bits::{lemma_get_bounded, lemma_low_masks, low_mask, read_bits, write_bits};
use crate::field::{field, lemma_field_fits, with_field, Field};

verus! {

/// Configuration structure for current GPIO pin.
///
/// A snapshot of one pin's configuration register: a plain 32-bit value whose
/// operations never touch the hardware.
#[derive(Clone, Copy, Debug, PartialEq, Eq, Structural)]
pub struct GpioConfig(u32);

impl View for GpioConfig {
    type V = u32;

    closed spec fn view(&self) -> u32 {
        self.0
    }
}

impl Default for GpioConfig {
    /// The configuration of raw value zero.
    fn default() -> (r: Self)
        ensures
            r@ == 0,
    {
        GpioConfig(0)
    }
}

impl GpioConfig {
    /// Configuration holding the raw register word `bits`.
    pub fn from_bits(bits: u32) -> (r: Self)
        ensures
            r@ == bits,
    {
        GpioConfig(bits)
    }

    /// The raw register word of this configuration.
    pub fn bits(self) -> (r: u32)
        ensures
            r == self@,
    {
        self.0
    }

    fn get(self, f: Field) -> (r: u32)
        ensures
            r == field(self@, f),
            r <= low_mask(f.spec_width()),
    {
        proof {
            lemma_field_fits(f);
            lemma_get_bounded(self.0, f.spec_offset(), f.spec_width());
        }
        read_bits(self.0, f.offset(), f.width())
    }

    fn with(self, f: Field, x: u32) -> (r: Self)
        ensures
            r@ == with_field(self@, f, x),
    {
        proof {
            lemma_field_fits(f);
        }
        GpioConfig(write_bits(self.0, f.offset(), f.width(), x))
    }

    /// Enable input function of current pin.
    pub fn enable_input(self) -> (r: Self)
        ensures
            r@ == with_field(self@, Field::InputEnable, 1),
    {
        self.with(Field::InputEnable, 1)
    }

    /// Disable input function of current pin.
    pub fn disable_input(self) -> (r: Self)
        ensures
            r@ == with_field(self@, Field::InputEnable, 0),
    {
        self.with(Field::InputEnable, 0)
    }

    /// Enable Schmitt trigger function of current pin.
    pub fn enable_schmitt(self) -> (r: Self)
        ensures
            r@ == with_field(self@, Field::Schmitt, 1),
    {
        self.with(Field::Schmitt, 1)
    }

    /// Disable Schmitt trigger function of current pin.
    pub fn disable_schmitt(self) -> (r: Self)
        ensures
            r@ == with_field(self@, Field::Schmitt, 0),
    {
        self.with(Field::Schmitt, 0)
    }

    /// Enable output function of current pin.
    pub fn enable_output(self) -> (r: Self)
        ensures
            r@ == with_field(self@, Field::OutputEnable, 1),
    {
        self.with(Field::OutputEnable, 1)
    }

    /// Disable output function of current pin.
    pub fn disable_output(self) -> (r: Self)
        ensures
            r@ == with_field(self@, Field::OutputEnable, 0),
    {
        self.with(Field::OutputEnable, 0)
    }

    /// Mask the interrupt of current pin.
    pub fn mask_interrupt(self) -> (r: Self)
        ensures
            r@ == with_field(self@, Field::InterruptMask, 1),
    {
        self.with(Field::InterruptMask, 1)
    }

    /// Unmask the interrupt of current pin.
    pub fn unmask_interrupt(self) -> (r: Self)
        ensures
            r@ == with_field(self@, Field::InterruptMask, 0),
    {
        self.with(Field::InterruptMask, 0)
    }

    /// Set pin output value to high (write-only strobe).
    pub fn set(self) -> (r: Self)
        ensures
            r@ == with_field(self@, Field::SetStrobe, 1),
    {
        self.with(Field::SetStrobe, 1)
    }

    /// Clear pin output value to low (write-only strobe).
    pub fn clear(self) -> (r: Self)
        ensures
            r@ == with_field(self@, Field::ClearStrobe, 1),
    {
        self.with(Field::ClearStrobe, 1)
    }

    /// Clear the pending interrupt of current pin (write-only strobe).
    pub fn clear_interrupt(self) -> (r: Self)
        ensures
            r@ == with_field(self@, Field::ClearInterrupt, 1),
    {
        self.with(Field::ClearInterrupt, 1)
    }

    /// Check if input function of current pin is enabled.
    pub fn is_input_enabled(self) -> (r: bool)
        ensures
            r == (field(self@, Field::InputEnable) == 1),
    {
        self.get(Field::InputEnable) == 1
    }

    /// Check if Schmitt trigger function of current pin is enabled.
    pub fn is_schmitt_enabled(self) -> (r: bool)
        ensures
            r == (field(self@, Field::Schmitt) == 1),
    {
        self.get(Field::Schmitt) == 1
    }

    /// Check if output function of current pin is enabled.
    pub fn is_output_enabled(self) -> (r: bool)
        ensures
            r == (field(self@, Field::OutputEnable) == 1),
    {
        self.get(Field::OutputEnable) == 1
    }

    /// Check if the interrupt of current pin is masked.
    pub fn is_interrupt_masked(self) -> (r: bool)
        ensures
            r == (field(self@, Field::InterruptMask) == 1),
    {
        self.get(Field::InterruptMask) == 1
    }

    /// Get output level of current pin.
    pub fn output(self) -> (r: bool)
        ensures
            r == (field(self@, Field::Output) == 1),
    {
        self.get(Field::Output) == 1
    }

    /// Get input level of current pin.
    pub fn input(self) -> (r: bool)
        ensures
            r == (field(self@, Field::Input) == 1),
    {
        self.get(Field::Input) == 1
    }

    /// Check if current pin has a pending interrupt.
    pub fn has_interrupt(self) -> (r: bool)
        ensures
            r == (field(self@, Field::HasInterrupt) == 1),
    {
        self.get(Field::HasInterrupt) == 1
    }

    /// Get drive strength of current pin.
    pub fn drive(self) -> (r: Drive)
        ensures
            Drive::from_code(field(self@, Field::Drive)) == Some(r),
    {
        let code = self.get(Field::Drive);
        proof {
            lemma_low_masks();
        }
        match code {
            0 => Drive::Drive0,
            1 => Drive::Drive1,
            2 => Drive::Drive2,
            _ => Drive::Drive3,
        }
    }

    /// Set drive strength of current pin.
    pub fn set_drive(self, val: Drive) -> (r: Self)
        ensures
            r@ == with_field(self@, Field::Drive, val.spec_code()),
    {
        self.with(Field::Drive, val.code())
    }

    /// Get function of current pin.
    ///
    /// The field must hold a valid code: a reserved one means corrupted
    /// register content or unsupported silicon.
    pub fn function(self) -> (r: Function)
        requires
            Function::from_code(field(self@, Field::Function)) is Some,
        ensures
            Function::from_code(field(self@, Field::Function)) == Some(r),
    {
        let code = self.get(Field::Function);
        match code {
            0 => Function::Sdh,
            1 => Function::Spi0,
            2 => Function::Flash,
            3 => Function::I2s,
            4 => Function::Pdm,
            5 => Function::I2c0,
            6 => Function::I2c1,
            7 => Function::Uart,
            8 => Function::Emac,
            9 => Function::Cam,
            10 => Function::Analog,
            11 => Function::Gpio,
            16 => Function::Pwm0,
            17 => Function::Pwm1,
            18 => Function::Spi1,
            19 => Function::I2c2,
            20 => Function::I2c3,
            21 => Function::MmUart,
            22 => Function::DbiB,
            23 => Function::DbiC,
            24 => Function::Dpi,
            25 => Function::JtagLp,
            26 => Function::JtagM0,
            27 => Function::JtagD0,
            31 => Function::ClockOut,
            _ => vstd::pervasive::unreached(),
        }
    }

    /// Set function of current pin.
    pub fn set_function(self, val: Function) -> (r: Self)
        ensures
            r@ == with_field(self@, Field::Function, val.spec_code()),
    {
        self.with(Field::Function, val.code())
    }

    /// Get interrupt mode of current pin.
    ///
    /// The field must hold a valid code: a reserved one means corrupted
    /// register content or unsupported silicon.
    pub fn interrupt_mode(self) -> (r: InterruptMode)
        requires
            InterruptMode::from_code(field(self@, Field::InterruptMode)) is Some,
        ensures
            InterruptMode::from_code(field(self@, Field::InterruptMode)) == Some(r),
    {
        let code = self.get(Field::InterruptMode);
        match code {
            0 => InterruptMode::SyncFallingEdge,
            1 => InterruptMode::SyncRisingEdge,
            2 => InterruptMode::SyncLowLevel,
            3 => InterruptMode::SyncHighLevel,
            4 => InterruptMode::SyncBothEdges,
            8 => InterruptMode::AsyncFallingEdge,
            9 => InterruptMode::AsyncRisingEdge,
            10 => InterruptMode::AsyncLowLevel,
            11 => InterruptMode::AsyncHighLevel,
            _ => vstd::pervasive::unreached(),
        }
    }

    /// Set interrupt mode of current pin.
    pub fn set_interrupt_mode(self, val: InterruptMode) -> (r: Self)
        ensures
            r@ == with_field(self@, Field::InterruptMode, val.spec_code()),
    {
        self.with(Field::InterruptMode, val.code())
    }

    /// Get mode of current pin.
    pub fn mode(self) -> (r: Mode)
        ensures
            Mode::from_code(field(self@, Field::Mode)) == Some(r),
    {
        let code = self.get(Field::Mode);
        proof {
            lemma_low_masks();
        }
        match code {
            0 => Mode::Normal,
            1 => Mode::SetClear,
            2 => Mode::Programmable,
            _ => Mode::BufferedSetClear,
        }
    }

    /// Set mode of current pin.
    pub fn set_mode(self, val: Mode) -> (r: Self)
        ensures
            r@ == with_field(self@, Field::Mode, val.spec_code()),
    {
        self.with(Field::Mode, val.code())
    }

    /// Get pull direction of current pin.
    ///
    /// The field must hold a valid code: a reserved one means corrupted
    /// register content or unsupported silicon.
    pub fn pull(self) -> (r: Pull)
        requires
            Pull::from_code(field(self@, Field::Pull)) is Some,
        ensures
            Pull::from_code(field(self@, Field::Pull)) == Some(r),
    {
        let code = self.get(Field::Pull);
        match code {
            0 => Pull::Floating,
            1 => Pull::Up,
            2 => Pull::Down,
            _ => vstd::pervasive::unreached(),
        }
    }

    /// Set pull direction of current pin.
    pub fn set_pull(self, val: Pull) -> (r: Self)
        ensures
            r@ == with_field(self@, Field::Pull, val.spec_code()),
    {
        self.with(Field::Pull, val.code())
    }
}

/// Pin drive strength.
#[derive(Clone, Copy, Debug, PartialEq, Eq, Structural)]
pub enum Drive {
    /// Drive strength 0.
    Drive0,
    /// Drive strength 1.
    Drive1,
    /// Drive strength 2.
    Drive2,
    /// Drive strength 3.
    Drive3,
}

impl Drive {
    /// The field code of this drive strength.
    pub open spec fn spec_code(self) -> u32 {
        match self {
            Drive::Drive0 => 0,
            Drive::Drive1 => 1,
            Drive::Drive2 => 2,
            Drive::Drive3 => 3,
        }
    }

    /// The drive strength that `code` stands for, if any.
    pub open spec fn from_code(code: u32) -> Option<Drive> {
        match code {
            0 => Some(Drive::Drive0),
            1 => Some(Drive::Drive1),
            2 => Some(Drive::Drive2),
            3 => Some(Drive::Drive3),
            _ => None,
        }
    }

    pub(crate) fn code(self) -> (r: u32)
        ensures
            r == self.spec_code(),
    {
        match self {
            Drive::Drive0 => 0,
            Drive::Drive1 => 1,
            Drive::Drive2 => 2,
            Drive::Drive3 => 3,
        }
    }
}

/// Pin alternate function.
#[derive(Clone, Copy, Debug, PartialEq, Eq, Structural)]
pub enum Function {
    /// SD host.
    Sdh,
    /// SPI 0.
    Spi0,
    /// Flash memory.
    Flash,
    /// I2S.
    I2s,
    /// PDM.
    Pdm,
    /// I2C 0.
    I2c0,
    /// I2C 1.
    I2c1,
    /// UART.
    Uart,
    /// Ethernet MAC.
    Emac,
    /// Camera.
    Cam,
    /// Analog.
    Analog,
    /// Plain GPIO.
    Gpio,
    /// PWM 0.
    Pwm0,
    /// PWM 1.
    Pwm1,
    /// SPI 1.
    Spi1,
    /// I2C 2.
    I2c2,
    /// I2C 3.
    I2c3,
    /// Multimedia UART.
    MmUart,
    /// Display bus interface, type B.
    DbiB,
    /// Display bus interface, type C.
    DbiC,
    /// Display parallel interface.
    Dpi,
    /// JTAG of the low-power core.
    JtagLp,
    /// JTAG of the M0 core.
    JtagM0,
    /// JTAG of the D0 core.
    JtagD0,
    /// Clock output.
    ClockOut,
}

impl Function {
    /// The field code of this alternate function.
    pub open spec fn spec_code(self) -> u32 {
        match self {
            Function::Sdh => 0,
            Function::Spi0 => 1,
            Function::Flash => 2,
            Function::I2s => 3,
            Function::Pdm => 4,
            Function::I2c0 => 5,
            Function::I2c1 => 6,
            Function::Uart => 7,
            Function::Emac => 8,
            Function::Cam => 9,
            Function::Analog => 10,
            Function::Gpio => 11,
            Function::Pwm0 => 16,
            Function::Pwm1 => 17,
            Function::Spi1 => 18,
            Function::I2c2 => 19,
            Function::I2c3 => 20,
            Function::MmUart => 21,
            Function::DbiB => 22,
            Function::DbiC => 23,
            Function::Dpi => 24,
            Function::JtagLp => 25,
            Function::JtagM0 => 26,
            Function::JtagD0 => 27,
            Function::ClockOut => 31,
        }
    }

    /// The alternate function that `code` stands for, if any.
    pub open spec fn from_code(code: u32) -> Option<Function> {
        match code {
            0 => Some(Function::Sdh),
            1 => Some(Function::Spi0),
            2 => Some(Function::Flash),
            3 => Some(Function::I2s),
            4 => Some(Function::Pdm),
            5 => Some(Function::I2c0),
            6 => Some(Function::I2c1),
            7 => Some(Function::Uart),
            8 => Some(Function::Emac),
            9 => Some(Function::Cam),
            10 => Some(Function::Analog),
            11 => Some(Function::Gpio),
            16 => Some(Function::Pwm0),
            17 => Some(Function::Pwm1),
            18 => Some(Function::Spi1),
            19 => Some(Function::I2c2),
            20 => Some(Function::I2c3),
            21 => Some(Function::MmUart),
            22 => Some(Function::DbiB),
            23 => Some(Function::DbiC),
            24 => Some(Function::Dpi),
            25 => Some(Function::JtagLp),
            26 => Some(Function::JtagM0),
            27 => Some(Function::JtagD0),
            31 => Some(Function::ClockOut),
            _ => None,
        }
    }

    pub(crate) fn code(self) -> (r: u32)
        ensures
            r == self.spec_code(),
    {
        match self {
            Function::Sdh => 0,
            Function::Spi0 => 1,
            Function::Flash => 2,
            Function::I2s => 3,
            Function::Pdm => 4,
            Function::I2c0 => 5,
            Function::I2c1 => 6,
            Function::Uart => 7,
            Function::Emac => 8,
            Function::Cam => 9,
            Function::Analog => 10,
            Function::Gpio => 11,
            Function::Pwm0 => 16,
            Function::Pwm1 => 17,
            Function::Spi1 => 18,
            Function::I2c2 => 19,
            Function::I2c3 => 20,
            Function::MmUart => 21,
            Function::DbiB => 22,
            Function::DbiC => 23,
            Function::Dpi => 24,
            Function::JtagLp => 25,
            Function::JtagM0 => 26,
            Function::JtagD0 => 27,
            Function::ClockOut => 31,
        }
    }
}

/// Pin interrupt mode.
#[derive(Clone, Copy, Debug, PartialEq, Eq, Structural)]
pub enum InterruptMode {
    /// Synchronous, on falling edge.
    SyncFallingEdge,
    /// Synchronous, on rising edge.
    SyncRisingEdge,
    /// Synchronous, while low.
    SyncLowLevel,
    /// Synchronous, while high.
    SyncHighLevel,
    /// Synchronous, on both edges.
    SyncBothEdges,
    /// Asynchronous, on falling edge.
    AsyncFallingEdge,
    /// Asynchronous, on rising edge.
    AsyncRisingEdge,
    /// Asynchronous, while low.
    AsyncLowLevel,
    /// Asynchronous, while high.
    AsyncHighLevel,
}

impl InterruptMode {
    /// The field code of this interrupt mode.
    pub open spec fn spec_code(self) -> u32 {
        match self {
            InterruptMode::SyncFallingEdge => 0,
            InterruptMode::SyncRisingEdge => 1,
            InterruptMode::SyncLowLevel => 2,
            InterruptMode::SyncHighLevel => 3,
            InterruptMode::SyncBothEdges => 4,
            InterruptMode::AsyncFallingEdge => 8,
            InterruptMode::AsyncRisingEdge => 9,
            InterruptMode::AsyncLowLevel => 10,
            InterruptMode::AsyncHighLevel => 11,
        }
    }

    /// The interrupt mode that `code` stands for, if any.
    pub open spec fn from_code(code: u32) -> Option<InterruptMode> {
        match code {
            0 => Some(InterruptMode::SyncFallingEdge),
            1 => Some(InterruptMode::SyncRisingEdge),
            2 => Some(InterruptMode::SyncLowLevel),
            3 => Some(InterruptMode::SyncHighLevel),
            4 => Some(InterruptMode::SyncBothEdges),
            8 => Some(InterruptMode::AsyncFallingEdge),
            9 => Some(InterruptMode::AsyncRisingEdge),
            10 => Some(InterruptMode::AsyncLowLevel),
            11 => Some(InterruptMode::AsyncHighLevel),
            _ => None,
        }
    }

    pub(crate) fn code(self) -> (r: u32)
        ensures
            r == self.spec_code(),
    {
        match self {
            InterruptMode::SyncFallingEdge => 0,
            InterruptMode::SyncRisingEdge => 1,
            InterruptMode::SyncLowLevel => 2,
            InterruptMode::SyncHighLevel => 3,
            InterruptMode::SyncBothEdges => 4,
            InterruptMode::AsyncFallingEdge => 8,
            InterruptMode::AsyncRisingEdge => 9,
            InterruptMode::AsyncLowLevel => 10,
            InterruptMode::AsyncHighLevel => 11,
        }
    }
}

/// Pin mode as GPIO.
#[derive(Clone, Copy, Debug, PartialEq, Eq, Structural)]
pub enum Mode {
    /// Output level follows the output register.
    Normal,
    /// Output level driven by the set and clear strobes.
    SetClear,
    /// Programmable output.
    Programmable,
    /// Set and clear strobes, buffered.
    BufferedSetClear,
}

impl Mode {
    /// The field code of this mode.
    pub open spec fn spec_code(self) -> u32 {
        match self {
            Mode::Normal => 0,
            Mode::SetClear => 1,
            Mode::Programmable => 2,
            Mode::BufferedSetClear => 3,
        }
    }

    /// The mode that `code` stands for, if any.
    pub open spec fn from_code(code: u32) -> Option<Mode> {
        match code {
            0 => Some(Mode::Normal),
            1 => Some(Mode::SetClear),
            2 => Some(Mode::Programmable),
            3 => Some(Mode::BufferedSetClear),
            _ => None,
        }
    }

    pub(crate) fn code(self) -> (r: u32)
        ensures
            r == self.spec_code(),
    {
        match self {
            Mode::Normal => 0,
            Mode::SetClear => 1,
            Mode::Programmable => 2,
            Mode::BufferedSetClear => 3,
        }
    }
}

/// Pin pull direction.
#[derive(Clone, Copy, Debug, PartialEq, Eq, Structural)]
pub enum Pull {
    /// No pull: the pin floats.
    Floating,
    /// Pull up.
    Up,
    /// Pull down.
    Down,
}

impl Pull {
    /// The field code of this pull direction.
    pub open spec fn spec_code(self) -> u32 {
        match self {
            Pull::Floating => 0,
            Pull::Up => 1,
            Pull::Down => 2,
        }
    }

    /// The pull direction that `code` stands for, if any.
    pub open spec fn from_code(code: u32) -> Option<Pull> {
        match code {
            0 => Some(Pull::Floating),
            1 => Some(Pull::Up),
            2 => Some(Pull::Down),
            _ => None,
        }
    }

    pub(crate) fn code(self) -> (r: u32)
        ensures
            r == self.spec_code(),
    {
        match self {
            Pull::Floating => 0,
            Pull::Up => 1,
            Pull::Down => 2,
        }
    }
}

} // verus!

//! The fixed wiring and timing of the board: which pin carries which signal,
//! how fast the clocks run, and the SPI mode the controller expects.

use stm32f0xx_hal::time::{Hertz, U32Ext};
use vstd::prelude::*;

verus! {

/// Logic level of a digital line.
#[derive(Clone, Copy, Debug, PartialEq, Eq, Structural)]
pub enum Level {
    Low,
    High,
}

/// The two control lines that the firmware drives by hand. Both are active
/// low: the controller is selected, or held in reset, while its line is low.
#[derive(Clone, Copy, Debug, PartialEq, Eq, Structural)]
pub enum Line {
    ChipSelect,
    Reset,
}

/// The five signals between the microcontroller and the Ethernet controller.
#[derive(Clone, Copy, Debug, PartialEq, Eq, Structural)]
pub enum Signal {
    /// SPI clock, driven by the microcontroller.
    Clock,
    /// SPI data from the controller.
    DataIn,
    /// SPI data to the controller.
    DataOut,
    /// Chip-select, driven by hand.
    ChipSelect,
    /// Reset, driven by hand.
    Reset,
}

/// The pins of port A that the board uses.
#[derive(Clone, Copy, Debug, PartialEq, Eq, Structural)]
pub enum Pin {
    Pa3,
    Pa4,
    Pa5,
    Pa6,
    Pa7,
}

/// The electrical function that a pin is put into.
#[derive(Clone, Copy, Debug, PartialEq, Eq, Structural)]
pub enum PinFunction {
    /// Alternate function 0: the pin is routed to the SPI peripheral.
    AlternateZero,
    /// Push-pull output: the firmware drives the pin high or low.
    PushPullOutput,
}

/// Idle level of the SPI clock.
#[derive(Clone, Copy, Debug, PartialEq, Eq, Structural)]
pub enum Polarity {
    IdleLow,
    IdleHigh,
}

/// Clock edge on which data is sampled.
#[derive(Clone, Copy, Debug, PartialEq, Eq, Structural)]
pub enum Phase {
    CaptureOnFirstTransition,
    CaptureOnSecondTransition,
}

/// SPI signal mode.
#[derive(Clone, Copy, Debug, PartialEq, Eq, Structural)]
pub struct SpiMode {
    pub polarity: Polarity,
    pub phase: Phase,
}

impl Line {
    /// The signal that the line carries.
    pub open spec fn carries(self) -> Signal {
        match self {
            Line::ChipSelect => Signal::ChipSelect,
            Line::Reset => Signal::Reset,
        }
    }

    /// The signal that the line carries.
    pub fn signal(self) -> (signal: Signal)
        ensures
            signal == self.carries(),
    {
        match self {
            Line::ChipSelect => Signal::ChipSelect,
            Line::Reset => Signal::Reset,
        }
    }
}

impl Signal {
    /// The pin that the signal is wired to.
    pub open spec fn wired_to(self) -> Pin {
        match self {
            Signal::Reset => Pin::Pa3,
            Signal::ChipSelect => Pin::Pa4,
            Signal::Clock => Pin::Pa5,
            Signal::DataIn => Pin::Pa6,
            Signal::DataOut => Pin::Pa7,
        }
    }

    /// The function that the signal's pin is put into: the three bus signals
    /// belong to the SPI peripheral, the two control lines are plain outputs.
    pub open spec fn needs(self) -> PinFunction {
        match self {
            Signal::Clock | Signal::DataIn | Signal::DataOut => PinFunction::AlternateZero,
            Signal::ChipSelect | Signal::Reset => PinFunction::PushPullOutput,
        }
    }

    /// The pin that the signal is wired to.
    pub fn pin(self) -> (pin: Pin)
        ensures
            pin == self.wired_to(),
    {
        match self {
            Signal::Reset => Pin::Pa3,
            Signal::ChipSelect => Pin::Pa4,
            Signal::Clock => Pin::Pa5,
            Signal::DataIn => Pin::Pa6,
            Signal::DataOut => Pin::Pa7,
        }
    }

    /// The function that the signal's pin is put into.
    pub fn function(self) -> (function: PinFunction)
        ensures
            function == self.needs(),
    {
        match self {
            Signal::Clock | Signal::DataIn | Signal::DataOut => PinFunction::AlternateZero,
            Signal::ChipSelect | Signal::Reset => PinFunction::PushPullOutput,
        }
    }
}

/// No pin is claimed twice: two signals that share a pin are the same signal.
pub proof fn law_one_signal_per_pin(first: Signal, second: Signal)
    requires
        first.wired_to() == second.wired_to(),
    ensures
        first == second,
{
}

/// System clock, in megahertz.
pub const SYSTEM_CLOCK_MHZ: u32 = 8;

/// SPI bus clock, in kilohertz. Slow on purpose: this is a first probe of the
/// wiring, not a production link.
pub const BUS_CLOCK_KHZ: u32 = 10;

/// System clock, in hertz.
pub open spec fn system_clock() -> u32 {
    8_000_000
}

/// SPI bus clock, in hertz.
pub open spec fn bus_clock() -> u32 {
    10_000
}

/// The mode in which the ENC28J60 samples the bus: clock idle low, data
/// captured on the first transition.
pub open spec fn controller_mode() -> SpiMode {
    SpiMode { polarity: Polarity::IdleLow, phase: Phase::CaptureOnFirstTransition }
}

/// The four bytes of the diagnostic transaction, in the order in which they
/// go out on the data line.
pub open spec fn probe() -> [u8; 4] {
    [0x12u8, 0x34u8, 0x56u8, 0x78u8]
}

/// Calls `stm32f0xx_hal::time::U32Ext::mhz` and converts the result with the
/// HAL's `From<MegaHertz> for Hertz`. Trusted: the conversion multiplies by one
/// million in `u32`; inputs whose product would overflow are excluded.
#[verifier::external_body]
fn hertz_of_mhz(mhz: u32) -> (hz: u32)
    requires
        mhz * 1_000_000 <= u32::MAX,
    ensures
        hz == mhz * 1_000_000,
{
    Hertz::from(mhz.mhz()).0
}

/// Calls `stm32f0xx_hal::time::U32Ext::khz` and converts the result with the
/// HAL's `From<KiloHertz> for Hertz`. Trusted: the conversion multiplies by one
/// thousand in `u32`; inputs whose product would overflow are excluded.
#[verifier::external_body]
fn hertz_of_khz(khz: u32) -> (hz: u32)
    requires
        khz * 1_000 <= u32::MAX,
    ensures
        hz == khz * 1_000,
{
    Hertz::from(khz.khz()).0
}

/// Reads `enc28j60::MODE`, the SPI mode constant that the controller's driver
/// crate publishes, and spells it in this crate's types. Trusted: the constant
/// is clock idle low, capture on the first transition.
#[verifier::external_body]
fn driver_mode() -> (mode: SpiMode)
    ensures
        mode == controller_mode(),
{
    let polarity = match enc28j60::MODE.polarity {
        embedded_hal::spi::Polarity::IdleLow => Polarity::IdleLow,
        embedded_hal::spi::Polarity::IdleHigh => Polarity::IdleHigh,
    };
    let phase = match enc28j60::MODE.phase {
        embedded_hal::spi::Phase::CaptureOnFirstTransition => Phase::CaptureOnFirstTransition,
        embedded_hal::spi::Phase::CaptureOnSecondTransition => Phase::CaptureOnSecondTransition,
    };
    SpiMode { polarity, phase }
}

/// The system clock frequency in hertz.
pub fn system_clock_hertz() -> (hz: u32)
    ensures
        hz == system_clock(),
{
    hertz_of_mhz(SYSTEM_CLOCK_MHZ)
}

/// The SPI bus clock frequency in hertz.
pub fn bus_clock_hertz() -> (hz: u32)
    ensures
        hz == bus_clock(),
{
    hertz_of_khz(BUS_CLOCK_KHZ)
}

/// The SPI mode to configure the bus with.
pub fn bus_mode() -> (mode: SpiMode)
    ensures
        mode == controller_mode(),
{
    driver_mode()
}

/// The bytes of the diagnostic transaction.
pub fn probe_bytes() -> (bytes: [u8; 4])
    ensures
        bytes == probe(),
{
    let bytes: [u8; 4] = [0x12, 0x34, 0x56, 0x78];
    assert(bytes =~= probe());
    bytes
}

} // verus!

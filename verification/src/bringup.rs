//! The bring-up sequence as a state machine.
//!
//! The firmware performs one command at a time and reports how it went; the
//! machine answers with the next thing to do. Control flow is strictly linear:
//! every step is entered once, in a fixed order, and the machine ends in one of
//! two states that it never leaves, halted or aborted.

use crate::board::{
    bus_clock, bus_clock_hertz, bus_mode, controller_mode, probe, probe_bytes, system_clock,
    system_clock_hertz, Level, Line, Pin, Signal, SpiMode,
};
use crate::diagnostic::{ChannelMode, CAPACITY, CHANNEL};
use vstd::prelude::*;

verus! {

/// The steps of the bring-up, in the order in which they run.
#[derive(Clone, Copy, Debug, PartialEq, Eq, Structural)]
pub enum Step {
    /// Set up the diagnostic channel and make it the print channel.
    OpenChannel,
    /// Print the banner.
    Announce,
    /// Take the processor core's peripherals.
    TakeCore,
    /// Take the microcontroller's peripherals.
    TakeDevice,
    /// Fix the system clock.
    ConfigureClock,
    /// Split the GPIO port into its pins.
    SplitPort,
    /// Put every pin into the electrical function of its signal.
    ClaimPins,
    /// Drive chip-select to its idle level.
    RaiseSelect,
    /// Drive reset to its idle level.
    RaiseReset,
    /// Build the SPI bus from the three bus pins.
    BuildBus,
    /// Assert chip-select: a transaction follows.
    Select,
    /// Clock the probe bytes out.
    Transmit,
    /// Release chip-select: the transaction is over.
    Deselect,
}

/// What the firmware is asked to do to the hardware.
#[derive(Clone, Copy, Debug, PartialEq, Eq)]
pub enum Command {
    /// Initialise the up channel with this number, with a buffer of this many
    /// bytes and this behaviour for when the buffer is full, and install it,
    /// with its critical-section callback, as the print channel.
    OpenChannel { channel: usize, capacity: usize, when_full: ChannelMode },
    /// Print the banner line on the diagnostic channel.
    Announce,
    /// Take the one-time handle to the core peripherals.
    TakeCore,
    /// Take the one-time handle to the device peripherals.
    TakeDevice,
    /// Configure and freeze the system clock at the given frequency.
    ConfigureClock { hertz: u32 },
    /// Split the GPIO port into pin handles.
    SplitPort,
    /// Inside one critical section, claim these pins: the three bus pins for
    /// the SPI peripheral, the two control pins as push-pull outputs.
    ClaimPins { clock: Pin, data_in: Pin, data_out: Pin, select: Pin, reset: Pin },
    /// Drive a control line to a level.
    Drive { line: Line, level: Level },
    /// Build the SPI bus with the given clock rate and signal mode.
    BuildBus { hertz: u32, mode: SpiMode },
    /// Write the bytes to the bus. Nothing is read back.
    Transmit { bytes: [u8; 4] },
}

/// How the hardware answered a command. A command that cannot fail is
/// reported as `Done`.
#[derive(Clone, Copy, Debug, PartialEq, Eq, Structural)]
pub enum Outcome {
    Done,
    Failed,
}

/// Where the bring-up stands.
#[derive(Clone, Copy, Debug, PartialEq, Eq, Structural)]
pub enum Stage {
    /// The command of this step has been issued and its outcome is awaited.
    Running(Step),
    /// The sequence is complete. Terminal.
    Halted,
    /// This step reported a failure that cannot be recovered from. Terminal.
    Aborted(Step),
}

/// What the firmware must do next.
#[derive(Clone, Copy, Debug, PartialEq, Eq)]
pub enum Action {
    /// Perform the command and report its outcome.
    Perform(Command),
    /// Idle forever without touching the hardware again.
    Halt,
    /// Give up: the named step failed. The firmware enters its fault path.
    Abort(Step),
}

/// A stage together with the action that the firmware owes in it.
#[derive(Clone, Copy, Debug, PartialEq, Eq)]
pub struct Transition {
    pub stage: Stage,
    pub action: Action,
}

impl Step {
    /// Position of the step in the sequence, counted from zero.
    pub open spec fn index(self) -> int {
        match self {
            Step::OpenChannel => 0,
            Step::Announce => 1,
            Step::TakeCore => 2,
            Step::TakeDevice => 3,
            Step::ConfigureClock => 4,
            Step::SplitPort => 5,
            Step::ClaimPins => 6,
            Step::RaiseSelect => 7,
            Step::RaiseReset => 8,
            Step::BuildBus => 9,
            Step::Select => 10,
            Step::Transmit => 11,
            Step::Deselect => 12,
        }
    }

    /// The step that follows this one, if any.
    pub open spec fn successor(self) -> Option<Step> {
        match self {
            Step::OpenChannel => Some(Step::Announce),
            Step::Announce => Some(Step::TakeCore),
            Step::TakeCore => Some(Step::TakeDevice),
            Step::TakeDevice => Some(Step::ConfigureClock),
            Step::ConfigureClock => Some(Step::SplitPort),
            Step::SplitPort => Some(Step::ClaimPins),
            Step::ClaimPins => Some(Step::RaiseSelect),
            Step::RaiseSelect => Some(Step::RaiseReset),
            Step::RaiseReset => Some(Step::BuildBus),
            Step::BuildBus => Some(Step::Select),
            Step::Select => Some(Step::Transmit),
            Step::Transmit => Some(Step::Deselect),
            Step::Deselect => None,
        }
    }

    /// Whether a failure of this step ends the bring-up. Taking a peripheral
    /// handle and driving a control line are checked. Every other step either
    /// cannot fail or, like the probe transmission, has its result ignored.
    pub open spec fn fatal(self) -> bool {
        match self {
            Step::TakeCore
            | Step::TakeDevice
            | Step::RaiseSelect
            | Step::RaiseReset
            | Step::Select
            | Step::Deselect => true,
            _ => false,
        }
    }

    /// The command by which the step is carried out.
    pub open spec fn command(self) -> Command {
        match self {
            Step::OpenChannel => Command::OpenChannel {
                channel: CHANNEL,
                capacity: CAPACITY,
                when_full: ChannelMode::NoBlockSkip,
            },
            Step::Announce => Command::Announce,
            Step::TakeCore => Command::TakeCore,
            Step::TakeDevice => Command::TakeDevice,
            Step::ConfigureClock => Command::ConfigureClock { hertz: system_clock() },
            Step::SplitPort => Command::SplitPort,
            Step::ClaimPins => Command::ClaimPins {
                clock: Signal::Clock.wired_to(),
                data_in: Signal::DataIn.wired_to(),
                data_out: Signal::DataOut.wired_to(),
                select: Signal::ChipSelect.wired_to(),
                reset: Signal::Reset.wired_to(),
            },
            Step::RaiseSelect => Command::Drive { line: Line::ChipSelect, level: Level::High },
            Step::RaiseReset => Command::Drive { line: Line::Reset, level: Level::High },
            Step::BuildBus => Command::BuildBus {
                hertz: bus_clock(),
                mode: controller_mode(),
            },
            Step::Select => Command::Drive { line: Line::ChipSelect, level: Level::Low },
            Step::Transmit => Command::Transmit { bytes: probe() },
            Step::Deselect => Command::Drive { line: Line::ChipSelect, level: Level::High },
        }
    }

    /// The step that follows this one, or `None` after the last.
    pub fn next(self) -> (following: Option<Step>)
        ensures
            following == self.successor(),
    {
        match self {
            Step::OpenChannel => Some(Step::Announce),
            Step::Announce => Some(Step::TakeCore),
            Step::TakeCore => Some(Step::TakeDevice),
            Step::TakeDevice => Some(Step::ConfigureClock),
            Step::ConfigureClock => Some(Step::SplitPort),
            Step::SplitPort => Some(Step::ClaimPins),
            Step::ClaimPins => Some(Step::RaiseSelect),
            Step::RaiseSelect => Some(Step::RaiseReset),
            Step::RaiseReset => Some(Step::BuildBus),
            Step::BuildBus => Some(Step::Select),
            Step::Select => Some(Step::Transmit),
            Step::Transmit => Some(Step::Deselect),
            Step::Deselect => None,
        }
    }

    /// Whether a reported failure of this step ends the bring-up.
    pub fn is_fatal(self) -> (fatal: bool)
        ensures
            fatal == self.fatal(),
    {
        match self {
            Step::TakeCore
            | Step::TakeDevice
            | Step::RaiseSelect
            | Step::RaiseReset
            | Step::Select
            | Step::Deselect => true,
            _ => false,
        }
    }

    /// Builds the command of this step, with its parameters.
    pub fn issue(self) -> (command: Command)
        ensures
            command == self.command(),
    {
        match self {
            Step::OpenChannel => Command::OpenChannel {
                channel: CHANNEL,
                capacity: CAPACITY,
                when_full: ChannelMode::NoBlockSkip,
            },
            Step::Announce => Command::Announce,
            Step::TakeCore => Command::TakeCore,
            Step::TakeDevice => Command::TakeDevice,
            Step::ConfigureClock => Command::ConfigureClock { hertz: system_clock_hertz() },
            Step::SplitPort => Command::SplitPort,
            Step::ClaimPins => Command::ClaimPins {
                clock: Signal::Clock.pin(),
                data_in: Signal::DataIn.pin(),
                data_out: Signal::DataOut.pin(),
                select: Signal::ChipSelect.pin(),
                reset: Signal::Reset.pin(),
            },
            Step::RaiseSelect => Command::Drive { line: Line::ChipSelect, level: Level::High },
            Step::RaiseReset => Command::Drive { line: Line::Reset, level: Level::High },
            Step::BuildBus => Command::BuildBus { hertz: bus_clock_hertz(), mode: bus_mode() },
            Step::Select => Command::Drive { line: Line::ChipSelect, level: Level::Low },
            Step::Transmit => Command::Transmit { bytes: probe_bytes() },
            Step::Deselect => Command::Drive { line: Line::ChipSelect, level: Level::High },
        }
    }
}

impl Stage {
    /// The stage that follows this one when the awaited outcome arrives. A
    /// fatal step that failed aborts; any other outcome moves on to the next
    /// step, and past the last step to the halt. The two terminal stages stay
    /// what they are.
    pub open spec fn after(self, outcome: Outcome) -> Stage {
        match self {
            Stage::Running(step) => if step.fatal() && outcome == Outcome::Failed {
                Stage::Aborted(step)
            } else {
                match step.successor() {
                    Some(following) => Stage::Running(following),
                    None => Stage::Halted,
                }
            },
            Stage::Halted => Stage::Halted,
            Stage::Aborted(step) => Stage::Aborted(step),
        }
    }

    /// The action that the firmware owes in this stage.
    pub open spec fn action(self) -> Action {
        match self {
            Stage::Running(step) => Action::Perform(step.command()),
            Stage::Halted => Action::Halt,
            Stage::Aborted(step) => Action::Abort(step),
        }
    }

    /// Whether the stage is one of the two that are never left.
    pub open spec fn terminal(self) -> bool {
        !(self is Running)
    }

    /// Builds the action that the firmware owes in this stage.
    pub fn owed(self) -> (action: Action)
        ensures
            action == self.action(),
    {
        match self {
            Stage::Running(step) => Action::Perform(step.issue()),
            Stage::Halted => Action::Halt,
            Stage::Aborted(step) => Action::Abort(step),
        }
    }
}

/// The first stage of every run.
pub open spec fn initial() -> Stage {
    Stage::Running(Step::OpenChannel)
}

/// Where the machine goes from `stage` on `outcome`, and what it asks for there.
pub open spec fn transition(stage: Stage, outcome: Outcome) -> Transition {
    Transition { stage: stage.after(outcome), action: stage.after(outcome).action() }
}

/// Begins a run: the first stage and the first action.
pub fn start() -> (first: Transition)
    ensures
        first.stage == initial(),
        first.action == initial().action(),
{
    let stage = Stage::Running(Step::OpenChannel);
    Transition { stage, action: stage.owed() }
}

/// Takes the outcome of the action that was owed in `stage` and answers with
/// the next stage and the action owed there.
///
/// A failure is fatal only at a checked step. At every other step the outcome
/// is not looked at. From a terminal stage the machine does not move.
pub fn advance(stage: Stage, outcome: Outcome) -> (next: Transition)
    ensures
        next == transition(stage, outcome),
{
    let following = match stage {
        Stage::Running(step) => {
            let failed = match outcome {
                Outcome::Failed => true,
                Outcome::Done => false,
            };
            if failed && step.is_fatal() {
                Stage::Aborted(step)
            } else {
                match step.next() {
                    Some(following) => Stage::Running(following),
                    None => Stage::Halted,
                }
            }
        },
        Stage::Halted => Stage::Halted,
        Stage::Aborted(step) => Stage::Aborted(step),
    };
    Transition { stage: following, action: following.owed() }
}

} // verus!

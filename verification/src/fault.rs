//! The fault path: what the firmware does once it has panicked.
//!
//! The path masks interrupts, reopens the diagnostic channel, switches it to
//! blocking so that the report cannot be dropped, writes the report and
//! halts. It has no command that touches a pin or the bus. Where the channel
//! was never set up there is nothing to write to, and the path halts at once.

use crate::bringup::Outcome;
use crate::diagnostic::{ChannelMode, CHANNEL};
use vstd::prelude::*;

verus! {

/// The steps of the fault path, in the order in which they run.
#[derive(Clone, Copy, Debug, PartialEq, Eq, Structural)]
pub enum FaultStep {
    /// Mask all interrupts, so that nothing can fault again while the report
    /// is written.
    MaskInterrupts,
    /// Get hold of the diagnostic channel again.
    ReopenChannel,
    /// Make writes wait for room in the buffer.
    BlockWhenFull,
    /// Write the report.
    Report,
}

/// What the firmware is asked to do on the fault path.
#[derive(Clone, Copy, Debug, PartialEq, Eq, Structural)]
pub enum FaultCommand {
    /// Disable interrupts, for good.
    MaskInterrupts,
    /// Reopen the up channel with this number. Fails where the channel was
    /// never initialised.
    ReopenChannel { channel: usize },
    /// Set what the reopened channel does when its buffer is full.
    SetMode { when_full: ChannelMode },
    /// Write the report line to the reopened channel, ignoring any error.
    Report,
}

/// Where the fault path stands.
#[derive(Clone, Copy, Debug, PartialEq, Eq, Structural)]
pub enum FaultStage {
    /// The command of this step has been issued and its outcome is awaited.
    Running(FaultStep),
    /// Nothing is left to do. Terminal.
    Halted,
}

/// What the firmware must do next on the fault path.
#[derive(Clone, Copy, Debug, PartialEq, Eq, Structural)]
pub enum FaultAction {
    /// Perform the command and report its outcome.
    Perform(FaultCommand),
    /// Idle forever. The system does not recover from a fault.
    Halt,
}

/// A stage of the fault path together with the action owed in it.
#[derive(Clone, Copy, Debug, PartialEq, Eq, Structural)]
pub struct FaultTransition {
    pub stage: FaultStage,
    pub action: FaultAction,
}

impl FaultStep {
    /// The command by which the step is carried out.
    pub open spec fn command(self) -> FaultCommand {
        match self {
            FaultStep::MaskInterrupts => FaultCommand::MaskInterrupts,
            FaultStep::ReopenChannel => FaultCommand::ReopenChannel { channel: CHANNEL },
            FaultStep::BlockWhenFull => FaultCommand::SetMode {
                when_full: ChannelMode::BlockIfFull,
            },
            FaultStep::Report => FaultCommand::Report,
        }
    }

    /// Builds the command of this step, with its parameters.
    pub fn issue(self) -> (command: FaultCommand)
        ensures
            command == self.command(),
    {
        match self {
            FaultStep::MaskInterrupts => FaultCommand::MaskInterrupts,
            FaultStep::ReopenChannel => FaultCommand::ReopenChannel { channel: CHANNEL },
            FaultStep::BlockWhenFull => FaultCommand::SetMode {
                when_full: ChannelMode::BlockIfFull,
            },
            FaultStep::Report => FaultCommand::Report,
        }
    }
}

impl FaultStage {
    /// The stage that follows this one when the awaited outcome arrives. Only
    /// the reopening is looked at: without a channel the path halts. Every
    /// other step is best effort, and the path moves on whatever it reported.
    pub open spec fn after(self, outcome: Outcome) -> FaultStage {
        match self {
            FaultStage::Running(FaultStep::MaskInterrupts) => FaultStage::Running(
                FaultStep::ReopenChannel,
            ),
            FaultStage::Running(FaultStep::ReopenChannel) => if outcome == Outcome::Done {
                FaultStage::Running(FaultStep::BlockWhenFull)
            } else {
                FaultStage::Halted
            },
            FaultStage::Running(FaultStep::BlockWhenFull) => FaultStage::Running(
                FaultStep::Report,
            ),
            FaultStage::Running(FaultStep::Report) => FaultStage::Halted,
            FaultStage::Halted => FaultStage::Halted,
        }
    }

    /// The action that the firmware owes in this stage.
    pub open spec fn action(self) -> FaultAction {
        match self {
            FaultStage::Running(step) => FaultAction::Perform(step.command()),
            FaultStage::Halted => FaultAction::Halt,
        }
    }

    /// Builds the action that the firmware owes in this stage.
    pub fn owed(self) -> (action: FaultAction)
        ensures
            action == self.action(),
    {
        match self {
            FaultStage::Running(step) => FaultAction::Perform(step.issue()),
            FaultStage::Halted => FaultAction::Halt,
        }
    }
}

/// The first stage of the fault path.
pub open spec fn fault_initial() -> FaultStage {
    FaultStage::Running(FaultStep::MaskInterrupts)
}

/// Where the fault path goes from `stage` on `outcome`, and what it asks for
/// there.
pub open spec fn fault_transition(stage: FaultStage, outcome: Outcome) -> FaultTransition {
    FaultTransition { stage: stage.after(outcome), action: stage.after(outcome).action() }
}

/// Enters the fault path: the first stage and the first action.
pub fn enter() -> (first: FaultTransition)
    ensures
        first.stage == fault_initial(),
        first.action == fault_initial().action(),
{
    let stage = FaultStage::Running(FaultStep::MaskInterrupts);
    FaultTransition { stage, action: stage.owed() }
}

/// Takes the outcome of the action that was owed in `stage` and answers with
/// the next stage of the fault path and the action owed there.
pub fn proceed(stage: FaultStage, outcome: Outcome) -> (next: FaultTransition)
    ensures
        next == fault_transition(stage, outcome),
{
    let following = match stage {
        FaultStage::Running(FaultStep::MaskInterrupts) => FaultStage::Running(
            FaultStep::ReopenChannel,
        ),
        FaultStage::Running(FaultStep::ReopenChannel) => match outcome {
            Outcome::Done => FaultStage::Running(FaultStep::BlockWhenFull),
            Outcome::Failed => FaultStage::Halted,
        },
        FaultStage::Running(FaultStep::BlockWhenFull) => FaultStage::Running(FaultStep::Report),
        FaultStage::Running(FaultStep::Report) => FaultStage::Halted,
        FaultStage::Halted => FaultStage::Halted,
    };
    FaultTransition { stage: following, action: following.owed() }
}

/// The stage in which the fault path stands once it has been told `outcomes`,
/// one after the other, from its entry.
pub open spec fn fault_stage_after(outcomes: Seq<Outcome>) -> FaultStage
    decreases outcomes.len(),
{
    if outcomes.len() == 0 {
        fault_initial()
    } else {
        fault_stage_after(outcomes.drop_last()).after(outcomes.last())
    }
}

/// Every action that the fault path has asked for by the time it has been
/// told `outcomes`.
pub open spec fn fault_actions(outcomes: Seq<Outcome>) -> Seq<FaultAction> {
    Seq::new(outcomes.len() + 1, |i: int| fault_stage_after(outcomes.take(i)).action())
}

/// The stage of the fault path after a given number of outcomes depends on
/// one thing only: whether the channel could be reopened.
proof fn lemma_fault_stage(outcomes: Seq<Outcome>)
    ensures
        fault_stage_after(outcomes) == (if outcomes.len() == 0 {
            FaultStage::Running(FaultStep::MaskInterrupts)
        } else if outcomes.len() == 1 {
            FaultStage::Running(FaultStep::ReopenChannel)
        } else if outcomes[1] == Outcome::Failed {
            FaultStage::Halted
        } else if outcomes.len() == 2 {
            FaultStage::Running(FaultStep::BlockWhenFull)
        } else if outcomes.len() == 3 {
            FaultStage::Running(FaultStep::Report)
        } else {
            FaultStage::Halted
        }),
    decreases outcomes.len(),
{
    if outcomes.len() > 0 {
        lemma_fault_stage(outcomes.drop_last());
    }
}

/// The fault path, whatever the hardware reports. Interrupts are masked
/// first and the channel is reopened second. If that succeeds, the channel
/// is switched to blocking and then the report is written, once; if it fails,
/// nothing is written. Every action after that is the halt.
pub proof fn law_fault_path(outcomes: Seq<Outcome>, i: int)
    requires
        0 <= i <= outcomes.len(),
    ensures
        fault_actions(outcomes)[i] == (if i == 0 {
            FaultAction::Perform(FaultCommand::MaskInterrupts)
        } else if i == 1 {
            FaultAction::Perform(FaultCommand::ReopenChannel { channel: CHANNEL })
        } else if outcomes[1] == Outcome::Failed {
            FaultAction::Halt
        } else if i == 2 {
            FaultAction::Perform(FaultCommand::SetMode { when_full: ChannelMode::BlockIfFull })
        } else if i == 3 {
            FaultAction::Perform(FaultCommand::Report)
        } else {
            FaultAction::Halt
        }),
{
    lemma_fault_stage(outcomes.take(i));
}

/// A report is never written to a channel that may drop it, and never
/// twice. Whenever the fault path asks for the report, the action just before
/// it set the channel to a blocking mode, and no other action of the run asks
/// for a report.
pub proof fn law_report_blocks(outcomes: Seq<Outcome>, i: int)
    requires
        0 <= i <= outcomes.len(),
        fault_actions(outcomes)[i] == FaultAction::Perform(FaultCommand::Report),
    ensures
        i >= 1,
        fault_actions(outcomes)[i - 1] matches FaultAction::Perform(
            FaultCommand::SetMode { when_full },
        ) && when_full.blocks(),
        forall|j: int|
            0 <= j <= outcomes.len() && #[trigger] fault_actions(outcomes)[j]
                == FaultAction::Perform(FaultCommand::Report) ==> j == i,
{
    law_fault_path(outcomes, i);
    law_fault_path(outcomes, i - 1);
    assert forall|j: int|
        0 <= j <= outcomes.len() && #[trigger] fault_actions(outcomes)[j] == FaultAction::Perform(
            FaultCommand::Report,
        ) implies j == i by {
        law_fault_path(outcomes, j);
    }
}

/// The fault path ends for good: once halted it stays halted, whatever is
/// reported afterwards.
pub proof fn law_fault_halt_absorbs(outcomes: Seq<Outcome>, more: Seq<Outcome>)
    requires
        fault_stage_after(outcomes) == FaultStage::Halted,
    ensures
        fault_stage_after(outcomes + more) == FaultStage::Halted,
    decreases more.len(),
{
    if more.len() == 0 {
        assert(outcomes + more =~= outcomes);
    } else {
        law_fault_halt_absorbs(outcomes, more.drop_last());
        assert((outcomes + more).drop_last() =~= outcomes + more.drop_last());
    }
}

} // verus!

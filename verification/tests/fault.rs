use spi_bringup::bringup::Outcome;
use spi_bringup::diagnostic::ChannelMode;
use spi_bringup::fault::{
    enter, proceed, FaultAction, FaultCommand, FaultStage, FaultStep, FaultTransition,
};

const HALT: FaultTransition =
    FaultTransition { stage: FaultStage::Halted, action: FaultAction::Halt };

fn walk(outcomes: &[Outcome]) -> Vec<FaultAction> {
    let mut at = enter();
    let mut trace = vec![at.action];
    for outcome in outcomes {
        at = proceed(at.stage, *outcome);
        trace.push(at.action);
    }
    trace
}

#[test]
fn fault_path_masks_interrupts_first() {
    let first = enter();
    assert_eq!(first.stage, FaultStage::Running(FaultStep::MaskInterrupts));
    assert_eq!(first.action, FaultAction::Perform(FaultCommand::MaskInterrupts));
}

#[test]
fn fault_path_with_a_channel_reports_once_in_blocking_mode() {
    let trace = walk(&[Outcome::Done; 6]);
    assert_eq!(
        trace,
        vec![
            FaultAction::Perform(FaultCommand::MaskInterrupts),
            FaultAction::Perform(FaultCommand::ReopenChannel { channel: 0 }),
            FaultAction::Perform(FaultCommand::SetMode { when_full: ChannelMode::BlockIfFull }),
            FaultAction::Perform(FaultCommand::Report),
            FaultAction::Halt,
            FaultAction::Halt,
            FaultAction::Halt,
        ]
    );
}

#[test]
fn fault_path_without_a_channel_halts_without_writing() {
    let trace = walk(&[Outcome::Done, Outcome::Failed, Outcome::Done, Outcome::Done]);
    assert_eq!(
        trace,
        vec![
            FaultAction::Perform(FaultCommand::MaskInterrupts),
            FaultAction::Perform(FaultCommand::ReopenChannel { channel: 0 }),
            FaultAction::Halt,
            FaultAction::Halt,
            FaultAction::Halt,
        ]
    );
}

#[test]
fn fault_path_ignores_every_outcome_but_the_reopening() {
    let all_failed_but_reopen =
        walk(&[Outcome::Failed, Outcome::Done, Outcome::Failed, Outcome::Failed]);
    assert_eq!(all_failed_but_reopen, walk(&[Outcome::Done; 4]));
}

#[test]
fn fault_path_halts_after_a_failed_report() {
    assert_eq!(proceed(FaultStage::Running(FaultStep::Report), Outcome::Failed), HALT);
}

#[test]
fn fault_halt_stays_halted() {
    assert_eq!(proceed(FaultStage::Halted, Outcome::Done), HALT);
    assert_eq!(proceed(FaultStage::Halted, Outcome::Failed), HALT);
}

#[test]
fn fault_steps_issue_their_commands() {
    assert_eq!(FaultStep::MaskInterrupts.issue(), FaultCommand::MaskInterrupts);
    assert_eq!(FaultStep::ReopenChannel.issue(), FaultCommand::ReopenChannel { channel: 0 });
    assert_eq!(
        FaultStep::BlockWhenFull.issue(),
        FaultCommand::SetMode { when_full: ChannelMode::BlockIfFull }
    );
    assert_eq!(FaultStep::Report.issue(), FaultCommand::Report);
    assert_eq!(FaultStage::Halted.owed(), FaultAction::Halt);
}

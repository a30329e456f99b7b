//! Whole runs of the bring-up machine.
//!
//! A run is fixed by the outcomes that the hardware reports, one per action.
//! This module says where the machine stands after any such sequence, which
//! actions it has asked for on the way, and what holds of every run.

use crate::bringup::{advance, initial, start, Action, Command, Outcome, Stage, Step};
use vstd::prelude::*;

verus! {

/// Number of steps in the sequence.
pub open spec fn step_count() -> int {
    13
}

/// The step at a position of the sequence.
pub open spec fn step_at(index: int) -> Step {
    if index <= 0 {
        Step::OpenChannel
    } else if index == 1 {
        Step::Announce
    } else if index == 2 {
        Step::TakeCore
    } else if index == 3 {
        Step::TakeDevice
    } else if index == 4 {
        Step::ConfigureClock
    } else if index == 5 {
        Step::SplitPort
    } else if index == 6 {
        Step::ClaimPins
    } else if index == 7 {
        Step::RaiseSelect
    } else if index == 8 {
        Step::RaiseReset
    } else if index == 9 {
        Step::BuildBus
    } else if index == 10 {
        Step::Select
    } else if index == 11 {
        Step::Transmit
    } else {
        Step::Deselect
    }
}

/// The stage in which the machine stands once it has been told `outcomes`,
/// one after the other, from the start.
pub open spec fn stage_after(outcomes: Seq<Outcome>) -> Stage
    decreases outcomes.len(),
{
    if outcomes.len() == 0 {
        initial()
    } else {
        stage_after(outcomes.drop_last()).after(outcomes.last())
    }
}

/// Every action that the machine has asked for by the time it has been told
/// `outcomes`: the first action, then one more for each outcome.
pub open spec fn actions(outcomes: Seq<Outcome>) -> Seq<Action> {
    Seq::new(outcomes.len() + 1, |i: int| stage_after(outcomes.take(i)).action())
}

/// Whether an action configures or drives a pin or the bus.
pub open spec fn wiring(action: Action) -> bool {
    match action {
        Action::Perform(Command::SplitPort) => true,
        Action::Perform(Command::ClaimPins { .. }) => true,
        Action::Perform(Command::Drive { .. }) => true,
        Action::Perform(Command::BuildBus { .. }) => true,
        Action::Perform(Command::Transmit { .. }) => true,
        _ => false,
    }
}

/// `step_at` and `Step::index` undo each other.
pub proof fn lemma_step_at(step: Step)
    ensures
        0 <= step.index() < step_count(),
        step_at(step.index()) == step,
{
}

/// A step's successor stands one position further on, and only the last
/// step has none.
pub proof fn lemma_successor(step: Step)
    ensures
        match step.successor() {
            Some(following) => following.index() == step.index() + 1,
            None => step.index() == step_count() - 1,
        },
{
}

/// The stage after `n` outcomes is the `n`-th step, unless the run has ended:
/// halted after all steps, or aborted at a fatal step that had been reached.
pub proof fn lemma_stage_shape(outcomes: Seq<Outcome>)
    ensures
        match stage_after(outcomes) {
            Stage::Running(step) => step.index() == outcomes.len(),
            Stage::Halted => outcomes.len() >= step_count(),
            Stage::Aborted(step) => step.fatal() && step.index() < outcomes.len(),
        },
    decreases outcomes.len(),
{
    if outcomes.len() > 0 {
        lemma_stage_shape(outcomes.drop_last());
        match stage_after(outcomes.drop_last()) {
            Stage::Running(step) => {
                lemma_successor(step);
            },
            _ => {},
        }
    }
}

/// Strictly linear control flow. In every run, the action at position `i` is
/// the command of the `i`-th step, with that step's fixed parameters, unless
/// the run has ended before: then it is the halt, which comes only after all
/// steps, or the abort that names a fatal step reached earlier.
pub proof fn law_linear(outcomes: Seq<Outcome>, i: int)
    requires
        0 <= i <= outcomes.len(),
    ensures
        match actions(outcomes)[i] {
            Action::Perform(command) => i < step_count() && command == step_at(i).command(),
            Action::Halt => i >= step_count(),
            Action::Abort(step) => step.fatal() && step.index() < i,
        },
{
    lemma_stage_shape(outcomes.take(i));
    match stage_after(outcomes.take(i)) {
        Stage::Running(step) => {
            lemma_step_at(step);
        },
        _ => {},
    }
}

/// No step is entered twice: two different moments of a run at which the
/// machine stands in the same stage are both after its end.
pub proof fn law_no_reentry(outcomes: Seq<Outcome>, i: int, j: int)
    requires
        0 <= i < j <= outcomes.len(),
        stage_after(outcomes.take(i)) == stage_after(outcomes.take(j)),
    ensures
        stage_after(outcomes.take(i)).terminal(),
{
    lemma_stage_shape(outcomes.take(i));
    lemma_stage_shape(outcomes.take(j));
}

/// A terminal stage is never left, and the machine keeps asking for the same
/// thing in it: no outcome that is reported afterwards changes anything.
pub proof fn law_terminal_absorbs(outcomes: Seq<Outcome>, more: Seq<Outcome>)
    requires
        stage_after(outcomes).terminal(),
    ensures
        stage_after(outcomes + more) == stage_after(outcomes),
    decreases more.len(),
{
    if more.len() == 0 {
        assert(outcomes + more =~= outcomes);
    } else {
        law_terminal_absorbs(outcomes, more.drop_last());
        assert((outcomes + more).drop_last() =~= outcomes + more.drop_last());
    }
}

/// In a run that is still under way, or that has halted, every earlier step
/// was entered at its own position.
pub proof fn lemma_reached(outcomes: Seq<Outcome>, i: int)
    requires
        !(stage_after(outcomes) is Aborted),
        0 <= i <= outcomes.len(),
        i < step_count(),
    ensures
        stage_after(outcomes.take(i)) == Stage::Running(step_at(i)),
        actions(outcomes)[i] == Action::Perform(step_at(i).command()),
{
    lemma_stage_shape(outcomes.take(i));
    if !(stage_after(outcomes.take(i)) is Running) {
        law_terminal_absorbs(outcomes.take(i), outcomes.skip(i));
        assert(outcomes.take(i) + outcomes.skip(i) =~= outcomes);
        lemma_stage_shape(outcomes);
    } else {
        lemma_step_at(stage_after(outcomes.take(i))->Running_0);
    }
}

/// Exactly one banner, and before any pin or bus activity. In every run the
/// second action is the banner, no other action is, and nothing that
/// configures or drives a pin or the bus is asked for before the banner's
/// outcome is in.
pub proof fn law_banner_first(outcomes: Seq<Outcome>)
    ensures
        outcomes.len() >= 1 ==> actions(outcomes)[1] == Action::Perform(Command::Announce),
        forall|i: int|
            0 <= i <= outcomes.len() && #[trigger] actions(outcomes)[i] == Action::Perform(
                Command::Announce,
            ) ==> i == 1,
        forall|i: int|
            0 <= i <= outcomes.len() && wiring(#[trigger] actions(outcomes)[i]) ==> i > 1,
{
    if outcomes.len() >= 1 {
        law_linear(outcomes, 1);
        lemma_stage_shape(outcomes.take(1));
    }
    assert forall|i: int|
        0 <= i <= outcomes.len() && #[trigger] actions(outcomes)[i] == Action::Perform(
            Command::Announce,
        ) implies i == 1 by {
        law_linear(outcomes, i);
    }
    assert forall|i: int|
        0 <= i <= outcomes.len() && wiring(#[trigger] actions(outcomes)[i]) implies i > 1 by {
        law_linear(outcomes, i);
    }
}

/// A fault finds the channel open. Whenever a run aborts, the diagnostic
/// channel was set up by the first action and the banner was printed by the
/// second, both before the step that failed; and the action that the machine
/// asks for last is the abort that names that step.
pub proof fn law_abort_after_channel(outcomes: Seq<Outcome>)
    requires
        stage_after(outcomes) is Aborted,
    ensures
        outcomes.len() > Step::Announce.index(),
        actions(outcomes)[0] == Action::Perform(Step::OpenChannel.command()),
        actions(outcomes)[1] == Action::Perform(Command::Announce),
        actions(outcomes).last() matches Action::Abort(step) && step.fatal()
            && Step::Announce.index() < step.index() < outcomes.len(),
{
    lemma_stage_shape(outcomes);
    law_linear(outcomes, 0);
    law_linear(outcomes, 1);
    assert(outcomes.take(outcomes.len() as int) =~= outcomes);
}

/// Runs the machine over `outcomes` without any hardware and returns every
/// action it asks for, the first one included.
pub fn replay(outcomes: &Vec<Outcome>) -> (trace: Vec<Action>)
    ensures
        trace@ == actions(outcomes@),
{
    let first = start();
    let mut stage = first.stage;
    let mut trace: Vec<Action> = Vec::new();
    trace.push(first.action);
    assert(outcomes@.take(0) =~= Seq::<Outcome>::empty());
    assert(trace@ =~= actions(outcomes@.take(0)));
    let mut i: usize = 0;
    while i < outcomes.len()
        invariant
            0 <= i <= outcomes.len(),
            stage == stage_after(outcomes@.take(i as int)),
            trace@ == actions(outcomes@.take(i as int)),
        decreases outcomes.len() - i,
    {
        let next = advance(stage, outcomes[i]);
        proof {
            let shorter = outcomes@.take(i as int);
            let longer = outcomes@.take(i as int + 1);
            assert(longer.drop_last() =~= shorter);
            assert(longer.last() == outcomes@[i as int]);
            assert forall|k: int| 0 <= k <= i implies #[trigger] longer.take(k) == shorter.take(
                k,
            ) by {
                assert(longer.take(k) =~= shorter.take(k));
            }
            assert(longer.take(i as int + 1) =~= longer);
            assert(trace@.push(next.action) =~= actions(longer));
        }
        stage = next.stage;
        trace.push(next.action);
        i += 1;
    }
    assert(outcomes@.take(outcomes.len() as int) =~= outcomes@);
    trace
}

} // verus!

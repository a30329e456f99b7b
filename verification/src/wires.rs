//! What an observer with a logic analyser sees: the levels of the two control
//! lines and the bytes on the data-out line.
//!
//! A command changes the wires when it is reported done. Of a command that is
//! reported failed nothing is assumed: the model leaves the wires as they
//! were, and no law below speaks of a line whose last command failed.

use crate::board::{bus_clock, controller_mode, probe, Level, Line};
use crate::bringup::{Action, Command, Outcome, Stage, Step};
use crate::run::{actions, law_terminal_absorbs, lemma_reached, lemma_stage_shape, stage_after};
use vstd::prelude::*;

verus! {

/// The observable state of the wiring.
pub struct Wires {
    /// Level of chip-select, once it has been driven.
    pub select: Option<Level>,
    /// Level of reset, once it has been driven.
    pub reset: Option<Level>,
    /// Every byte clocked out on data-out so far, in order.
    pub data_out: Seq<u8>,
}

/// The wiring before anything has touched it.
pub open spec fn untouched() -> Wires {
    Wires { select: None, reset: None, data_out: Seq::empty() }
}

/// The wiring after `action` was performed on `wires` with `outcome`.
pub open spec fn effect(wires: Wires, action: Action, outcome: Outcome) -> Wires {
    if outcome == Outcome::Failed {
        wires
    } else {
        match action {
            Action::Perform(Command::Drive { line: Line::ChipSelect, level }) => Wires {
                select: Some(level),
                ..wires
            },
            Action::Perform(Command::Drive { line: Line::Reset, level }) => Wires {
                reset: Some(level),
                ..wires
            },
            Action::Perform(Command::Transmit { bytes }) => Wires {
                data_out: wires.data_out + bytes@,
                ..wires
            },
            _ => wires,
        }
    }
}

/// The wiring once the hardware has performed, with `outcomes`, the actions
/// that the machine asked for.
pub open spec fn wires_after(outcomes: Seq<Outcome>) -> Wires
    decreases outcomes.len(),
{
    if outcomes.len() == 0 {
        untouched()
    } else {
        effect(
            wires_after(outcomes.drop_last()),
            stage_after(outcomes.drop_last()).action(),
            outcomes.last(),
        )
    }
}

/// The levels of the control lines while the outcome of `step` is awaited.
pub open spec fn lines_during(step: Step) -> (Option<Level>, Option<Level>) {
    if step.index() <= Step::RaiseSelect.index() {
        (None, None)
    } else if step == Step::RaiseReset {
        (Some(Level::High), None)
    } else if step == Step::Transmit || step == Step::Deselect {
        (Some(Level::Low), Some(Level::High))
    } else {
        (Some(Level::High), Some(Level::High))
    }
}

/// The wiring is a function of the stage, up to whether the transmission was
/// reported done. While a step is awaited, and after an abort at that step,
/// the lines stand as `lines_during` says; after the halt both are high.
/// Data-out has carried nothing before the transmission and at most the probe
/// after it.
pub proof fn lemma_wires_shape(outcomes: Seq<Outcome>)
    ensures
        match stage_after(outcomes) {
            Stage::Running(step) | Stage::Aborted(step) => {
                &&& (wires_after(outcomes).select, wires_after(outcomes).reset) == lines_during(
                    step,
                )
                &&& step.index() <= Step::Transmit.index() ==> wires_after(outcomes).data_out
                    == Seq::<u8>::empty()
            },
            Stage::Halted => {
                &&& wires_after(outcomes).select == Some(Level::High)
                &&& wires_after(outcomes).reset == Some(Level::High)
            },
        },
        outcomes.len() > Step::Transmit.index() ==> wires_after(outcomes).data_out == (
        if outcomes[Step::Transmit.index()] == Outcome::Done && stage_after(
            outcomes.take(Step::Transmit.index()),
        ) is Running {
            probe()@
        } else {
            Seq::<u8>::empty()
        }),
    decreases outcomes.len(),
{
    if outcomes.len() > 0 {
        let before = outcomes.drop_last();
        lemma_wires_shape(before);
        lemma_stage_shape(before);
        lemma_stage_shape(outcomes);
        let at = Step::Transmit.index();
        if outcomes.len() > at {
            assert(outcomes.take(at) =~= before.take(at));
            if before.len() == at {
                assert(before.take(at) =~= before);
                assert(Seq::<u8>::empty() + probe()@ =~= probe()@);
            } else {
                lemma_stage_shape(before.take(at));
                if !(stage_after(before.take(at)) is Running) {
                    law_terminal_absorbs(before.take(at), before.skip(at));
                    assert(before.take(at) + before.skip(at) =~= before);
                }
            }
        }
    }
}

/// Idle before the transaction. From the moment both control lines have been
/// raised, right after the pins were claimed, until chip-select is lowered,
/// both lines are high and nothing has gone out on data-out.
pub proof fn law_idle_high(outcomes: Seq<Outcome>)
    requires
        stage_after(outcomes) == Stage::Running(Step::BuildBus) || stage_after(outcomes)
            == Stage::Running(Step::Select),
    ensures
        wires_after(outcomes).select == Some(Level::High),
        wires_after(outcomes).reset == Some(Level::High),
        wires_after(outcomes).data_out == Seq::<u8>::empty(),
        actions(outcomes)[Step::ClaimPins.index()] == Action::Perform(
            Step::ClaimPins.command(),
        ),
        actions(outcomes)[Step::ClaimPins.index() + 1] == Action::Perform(
            Command::Drive { line: Line::ChipSelect, level: Level::High },
        ),
        actions(outcomes)[Step::ClaimPins.index() + 2] == Action::Perform(
            Command::Drive { line: Line::Reset, level: Level::High },
        ),
{
    lemma_wires_shape(outcomes);
    lemma_stage_shape(outcomes);
    lemma_reached(outcomes, Step::ClaimPins.index());
    lemma_reached(outcomes, Step::ClaimPins.index() + 1);
    lemma_reached(outcomes, Step::ClaimPins.index() + 2);
}

/// The transaction window. While the transmission is under way chip-select
/// is low and reset is high. Chip-select is still low when the transmission
/// returns, and the very next action, whatever the transmission reported,
/// raises it; once that is done the machine halts with both lines high.
pub proof fn law_select_window(outcomes: Seq<Outcome>)
    ensures
        stage_after(outcomes) == Stage::Running(Step::Transmit) ==> {
            &&& wires_after(outcomes).select == Some(Level::Low)
            &&& wires_after(outcomes).reset == Some(Level::High)
        },
        stage_after(outcomes) == Stage::Running(Step::Transmit) ==> forall|reported: Outcome|
            {
                &&& #[trigger] wires_after(outcomes.push(reported)).select == Some(Level::Low)
                &&& stage_after(outcomes.push(reported)).action() == Action::Perform(
                    Command::Drive { line: Line::ChipSelect, level: Level::High },
                )
            },
        stage_after(outcomes) == Stage::Halted ==> {
            &&& wires_after(outcomes).select == Some(Level::High)
            &&& wires_after(outcomes).reset == Some(Level::High)
        },
{
    lemma_wires_shape(outcomes);
    if stage_after(outcomes) == Stage::Running(Step::Transmit) {
        assert forall|reported: Outcome|
            {
                &&& #[trigger] wires_after(outcomes.push(reported)).select == Some(Level::Low)
                &&& stage_after(outcomes.push(reported)).action() == Action::Perform(
                    Command::Drive { line: Line::ChipSelect, level: Level::High },
                )
            } by {
            assert(outcomes.push(reported).drop_last() =~= outcomes);
            lemma_wires_shape(outcomes.push(reported));
        }
    }
}

/// Whether the probe transmission was performed in this run and reported done.
pub open spec fn transmitted(outcomes: Seq<Outcome>) -> bool {
    &&& outcomes.len() > Step::Transmit.index()
    &&& stage_after(outcomes.take(Step::Transmit.index())) == Stage::Running(Step::Transmit)
    &&& outcomes[Step::Transmit.index()] == Outcome::Done
}

/// Whether the run ended, or has not got far enough yet, without the probe
/// transmission ever being performed.
pub open spec fn silent(outcomes: Seq<Outcome>) -> bool {
    ||| outcomes.len() <= Step::Transmit.index()
    ||| stage_after(outcomes.take(Step::Transmit.index())) != Stage::Running(Step::Transmit)
}

/// The bytes on the wire. Data-out carries nothing in a run that has not
/// performed the transmission. Once the transmission is reported done it
/// carries exactly the four probe bytes, in order, and never anything more.
/// The bus they go out on was built, earlier in the same run, with the
/// configured clock rate and the controller's mode.
pub proof fn law_probe_bytes(outcomes: Seq<Outcome>)
    ensures
        probe()@ == seq![0x12u8, 0x34u8, 0x56u8, 0x78u8],
        silent(outcomes) ==> wires_after(outcomes).data_out == Seq::<u8>::empty(),
        transmitted(outcomes) ==> {
            &&& wires_after(outcomes).data_out == probe()@
            &&& actions(outcomes)[Step::Transmit.index()] == Action::Perform(
                Command::Transmit { bytes: probe() },
            )
            &&& actions(outcomes)[Step::BuildBus.index()] == Action::Perform(
                Command::BuildBus { hertz: bus_clock(), mode: controller_mode() },
            )
        },
{
    assert(probe()@ =~= seq![0x12u8, 0x34u8, 0x56u8, 0x78u8]);
    lemma_wires_shape(outcomes);
    let at = Step::Transmit.index();
    if outcomes.len() <= at {
        lemma_stage_shape(outcomes);
    } else {
        lemma_stage_shape(outcomes.take(at));
    }
    if transmitted(outcomes) {
        lemma_reached(outcomes.take(at), Step::BuildBus.index());
        assert(outcomes.take(at).take(Step::BuildBus.index()) =~= outcomes.take(
            Step::BuildBus.index(),
        ));
    }
}

/// Nothing moves after the end. Once the machine has halted or aborted, no
/// further outcome changes a line or puts a byte on the bus, and the machine
/// asks for nothing but the same halt or abort.
pub proof fn law_quiet_after_end(outcomes: Seq<Outcome>, more: Seq<Outcome>)
    requires
        stage_after(outcomes).terminal(),
    ensures
        stage_after(outcomes + more) == stage_after(outcomes),
        wires_after(outcomes + more) == wires_after(outcomes),
        forall|i: int|
            outcomes.len() <= i <= outcomes.len() + more.len() ==> #[trigger] actions(
                outcomes + more,
            )[i] == stage_after(outcomes).action(),
    decreases more.len(),
{
    law_terminal_absorbs(outcomes, more);
    if more.len() == 0 {
        assert(outcomes + more =~= outcomes);
    } else {
        law_quiet_after_end(outcomes, more.drop_last());
        assert((outcomes + more).drop_last() =~= outcomes + more.drop_last());
    }
    assert forall|i: int| outcomes.len() <= i <= outcomes.len() + more.len() implies #[trigger] actions(
        outcomes + more,
    )[i] == stage_after(outcomes).action() by {
        let k = i - outcomes.len();
        assert((outcomes + more).take(i) =~= outcomes + more.take(k));
        law_terminal_absorbs(outcomes, more.take(k));
    }
}

} // verus!

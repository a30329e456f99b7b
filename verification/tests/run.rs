use spi_bringup::board::{Level, Line, Phase, Pin, Polarity, SpiMode};
use spi_bringup::diagnostic::ChannelMode;
use spi_bringup::bringup::{Action, Command, Outcome, Step};
use spi_bringup::run::replay;

const TRANSMIT: usize = 11;

/// What a logic analyser would show: chip-select, reset, and the bytes on
/// data-out, after the hardware has performed `trace` with `outcomes`.
fn observe(trace: &[Action], outcomes: &[Outcome]) -> (Option<Level>, Option<Level>, Vec<u8>) {
    let mut select = None;
    let mut reset = None;
    let mut data_out = Vec::new();
    for (action, outcome) in trace.iter().zip(outcomes.iter()) {
        if *outcome == Outcome::Failed {
            continue;
        }
        match action {
            Action::Perform(Command::Drive { line: Line::ChipSelect, level }) => {
                select = Some(*level)
            }
            Action::Perform(Command::Drive { line: Line::Reset, level }) => reset = Some(*level),
            Action::Perform(Command::Transmit { bytes }) => data_out.extend_from_slice(bytes),
            _ => {}
        }
    }
    (select, reset, data_out)
}

fn touches_wiring(action: &Action) -> bool {
    matches!(
        action,
        Action::Perform(
            Command::SplitPort
                | Command::ClaimPins { .. }
                | Command::Drive { .. }
                | Command::BuildBus { .. }
                | Command::Transmit { .. }
        )
    )
}

fn failing_at(position: usize, length: usize) -> Vec<Outcome> {
    (0..length).map(|i| if i == position { Outcome::Failed } else { Outcome::Done }).collect()
}

#[test]
fn replay_of_nothing_is_the_first_action() {
    let trace = replay(&vec![]);
    assert_eq!(trace.len(), 1);
    assert!(matches!(trace[0], Action::Perform(Command::OpenChannel { .. })));
}

#[test]
fn replay_asks_for_one_action_more_than_it_is_told_outcomes() {
    for length in 0..20 {
        let trace = replay(&vec![Outcome::Done; length]);
        assert_eq!(trace.len(), length + 1);
    }
}

#[test]
fn replay_of_a_clean_run_ends_in_halt() {
    let trace = replay(&vec![Outcome::Done; 15]);
    assert!(trace[..13].iter().all(|action| matches!(action, Action::Perform(_))));
    assert_eq!(trace[13..], [Action::Halt, Action::Halt, Action::Halt]);
}

#[test]
fn replay_is_a_prefix_of_any_longer_replay() {
    let outcomes = failing_at(8, 16);
    let whole = replay(&outcomes);
    for length in 0..outcomes.len() {
        let part = replay(&outcomes[..length].to_vec());
        assert_eq!(part[..], whole[..length + 1]);
    }
}

#[test]
fn banner_is_emitted_once_and_before_any_wiring() {
    for position in 0..14 {
        let outcomes = failing_at(position, 16);
        let trace = replay(&outcomes);
        let banners: Vec<usize> = (0..trace.len())
            .filter(|i| trace[*i] == Action::Perform(Command::Announce))
            .collect();
        assert_eq!(banners, vec![1]);
        let first_wiring = trace.iter().position(touches_wiring);
        assert!(first_wiring.map_or(true, |i| i > 1));
    }
}

#[test]
fn lines_idle_high_after_pin_set_up() {
    let outcomes = vec![Outcome::Done; 10];
    let trace = replay(&outcomes);
    assert_eq!(
        trace[6],
        Action::Perform(Command::ClaimPins {
            clock: Pin::Pa5,
            data_in: Pin::Pa6,
            data_out: Pin::Pa7,
            select: Pin::Pa4,
            reset: Pin::Pa3,
        })
    );
    assert_eq!(
        trace[7],
        Action::Perform(Command::Drive { line: Line::ChipSelect, level: Level::High })
    );
    assert_eq!(trace[8], Action::Perform(Command::Drive { line: Line::Reset, level: Level::High }));
    for length in [9, 10] {
        let (select, reset, data_out) = observe(&trace, &outcomes[..length]);
        assert_eq!(select, Some(Level::High));
        assert_eq!(reset, Some(Level::High));
        assert!(data_out.is_empty());
    }
}

#[test]
fn lines_are_not_driven_before_pin_set_up() {
    let outcomes = vec![Outcome::Done; 7];
    let trace = replay(&outcomes);
    assert_eq!(observe(&trace, &outcomes), (None, None, vec![]));
}

#[test]
fn chip_select_is_low_for_the_whole_transfer_and_high_after() {
    for reported in [Outcome::Done, Outcome::Failed] {
        let mut outcomes = vec![Outcome::Done; 13];
        outcomes[TRANSMIT] = reported;
        let trace = replay(&outcomes);
        assert_eq!(
            trace[TRANSMIT],
            Action::Perform(Command::Transmit { bytes: [0x12, 0x34, 0x56, 0x78] })
        );
        let (select, reset, _) = observe(&trace, &outcomes[..TRANSMIT]);
        assert_eq!((select, reset), (Some(Level::Low), Some(Level::High)));
        let (select, reset, _) = observe(&trace, &outcomes[..TRANSMIT + 1]);
        assert_eq!((select, reset), (Some(Level::Low), Some(Level::High)));
        assert_eq!(
            trace[TRANSMIT + 1],
            Action::Perform(Command::Drive { line: Line::ChipSelect, level: Level::High })
        );
        let (select, reset, _) = observe(&trace, &outcomes);
        assert_eq!((select, reset), (Some(Level::High), Some(Level::High)));
        assert_eq!(trace[13], Action::Halt);
    }
}

#[test]
fn data_out_carries_exactly_the_probe() {
    let outcomes = vec![Outcome::Done; 20];
    let trace = replay(&outcomes);
    let (_, _, data_out) = observe(&trace, &outcomes);
    assert_eq!(data_out, vec![0x12, 0x34, 0x56, 0x78]);
    let (_, _, before) = observe(&trace, &outcomes[..TRANSMIT]);
    assert!(before.is_empty());
}

#[test]
fn bus_is_built_at_ten_kilohertz_before_the_transfer() {
    let trace = replay(&vec![Outcome::Done; 13]);
    assert_eq!(
        trace[9],
        Action::Perform(Command::BuildBus {
            hertz: 10_000,
            mode: SpiMode { polarity: Polarity::IdleLow, phase: Phase::CaptureOnFirstTransition },
        })
    );
    let transfers = trace
        .iter()
        .filter(|action| matches!(action, Action::Perform(Command::Transmit { .. })))
        .count();
    assert_eq!(transfers, 1);
}

#[test]
fn nothing_moves_after_the_halt() {
    let mut outcomes = vec![Outcome::Done; 13];
    let settled = observe(&replay(&outcomes), &outcomes);
    for extra in [Outcome::Done, Outcome::Failed, Outcome::Failed, Outcome::Done] {
        outcomes.push(extra);
        let trace = replay(&outcomes);
        assert_eq!(trace[outcomes.len()], Action::Halt);
        assert!(trace[13..].iter().all(|action| *action == Action::Halt));
        assert_eq!(observe(&trace, &outcomes), settled);
    }
}

#[test]
fn nothing_moves_after_an_abort() {
    let cases = [
        (2, Step::TakeCore),
        (3, Step::TakeDevice),
        (7, Step::RaiseSelect),
        (8, Step::RaiseReset),
        (10, Step::Select),
        (12, Step::Deselect),
    ];
    for (position, step) in cases {
        let outcomes = failing_at(position, 18);
        let trace = replay(&outcomes);
        assert!(trace[..position + 1].iter().all(|action| matches!(action, Action::Perform(_))));
        assert!(trace[position + 1..].iter().all(|action| *action == Action::Abort(step)));
        let at_abort = observe(&trace, &outcomes[..position + 1]);
        assert_eq!(observe(&trace, &outcomes), at_abort);
    }
}

#[test]
fn an_abort_comes_after_the_channel_and_the_banner() {
    for position in [2, 3, 7, 8, 10, 12] {
        let outcomes = failing_at(position, position + 1);
        let trace = replay(&outcomes);
        assert_eq!(
            trace[0],
            Action::Perform(Command::OpenChannel {
                channel: 0,
                capacity: 1024,
                when_full: ChannelMode::NoBlockSkip,
            })
        );
        assert_eq!(trace[1], Action::Perform(Command::Announce));
        assert!(matches!(trace[position + 1], Action::Abort(_)));
    }
}

#[test]
fn an_abort_before_the_transfer_puts_nothing_on_the_bus() {
    for position in [2, 3, 7, 8, 10] {
        let outcomes = failing_at(position, 18);
        let trace = replay(&outcomes);
        let (_, _, data_out) = observe(&trace, &outcomes);
        assert!(data_out.is_empty());
        assert!(!trace
            .iter()
            .any(|action| matches!(action, Action::Perform(Command::Transmit { .. }))));
    }
}

#[test]
fn failures_of_unchecked_steps_do_not_change_the_script() {
    let clean = replay(&vec![Outcome::Done; 14]);
    for position in [0, 1, 4, 5, 6, 9, 11, 13] {
        assert_eq!(replay(&failing_at(position, 14)), clean);
    }
}

#[test]
fn no_step_is_entered_twice() {
    let trace = replay(&vec![Outcome::Done; 30]);
    let set_ups = [
        Command::OpenChannel { channel: 0, capacity: 1024, when_full: ChannelMode::NoBlockSkip },
        Command::TakeCore,
        Command::TakeDevice,
        Command::ConfigureClock { hertz: 8_000_000 },
        Command::SplitPort,
        Command::ClaimPins {
            clock: Pin::Pa5,
            data_in: Pin::Pa6,
            data_out: Pin::Pa7,
            select: Pin::Pa4,
            reset: Pin::Pa3,
        },
    ];
    for command in set_ups {
        let count = trace.iter().filter(|action| **action == Action::Perform(command)).count();
        assert_eq!(count, 1);
    }
}

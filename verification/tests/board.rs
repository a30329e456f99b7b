use spi_bringup::board::{
    bus_clock_hertz, bus_mode, probe_bytes, system_clock_hertz, Line, Phase, Pin, PinFunction,
    Polarity, Signal, SpiMode, BUS_CLOCK_KHZ, SYSTEM_CLOCK_MHZ,
};

const SIGNALS: [Signal; 5] =
    [Signal::Clock, Signal::DataIn, Signal::DataOut, Signal::ChipSelect, Signal::Reset];

#[test]
fn system_clock_is_eight_megahertz() {
    assert_eq!(SYSTEM_CLOCK_MHZ, 8);
    assert_eq!(system_clock_hertz(), 8_000_000);
}

#[test]
fn bus_clock_is_ten_kilohertz() {
    assert_eq!(BUS_CLOCK_KHZ, 10);
    assert_eq!(bus_clock_hertz(), 10_000);
}

#[test]
fn bus_clock_is_slower_than_system_clock() {
    assert!(bus_clock_hertz() < system_clock_hertz());
}

#[test]
fn bus_mode_is_idle_low_first_edge() {
    assert_eq!(
        bus_mode(),
        SpiMode { polarity: Polarity::IdleLow, phase: Phase::CaptureOnFirstTransition }
    );
}

#[test]
fn bus_mode_is_what_the_driver_crate_publishes() {
    let published = enc28j60::MODE;
    let mode = bus_mode();
    assert_eq!(
        mode.polarity == Polarity::IdleHigh,
        published.polarity == embedded_hal::spi::Polarity::IdleHigh
    );
    assert_eq!(
        mode.phase == Phase::CaptureOnSecondTransition,
        published.phase == embedded_hal::spi::Phase::CaptureOnSecondTransition
    );
}

#[test]
fn probe_is_the_four_fixed_bytes() {
    assert_eq!(probe_bytes(), [0x12, 0x34, 0x56, 0x78]);
}

#[test]
fn bus_signals_sit_on_pa5_pa6_pa7() {
    assert_eq!(Signal::Clock.pin(), Pin::Pa5);
    assert_eq!(Signal::DataIn.pin(), Pin::Pa6);
    assert_eq!(Signal::DataOut.pin(), Pin::Pa7);
}

#[test]
fn control_lines_sit_on_pa4_and_pa3() {
    assert_eq!(Signal::ChipSelect.pin(), Pin::Pa4);
    assert_eq!(Signal::Reset.pin(), Pin::Pa3);
    assert_eq!(Line::ChipSelect.signal(), Signal::ChipSelect);
    assert_eq!(Line::Reset.signal(), Signal::Reset);
}

#[test]
fn bus_signals_are_alternate_function_and_lines_are_outputs() {
    assert_eq!(Signal::Clock.function(), PinFunction::AlternateZero);
    assert_eq!(Signal::DataIn.function(), PinFunction::AlternateZero);
    assert_eq!(Signal::DataOut.function(), PinFunction::AlternateZero);
    assert_eq!(Signal::ChipSelect.function(), PinFunction::PushPullOutput);
    assert_eq!(Signal::Reset.function(), PinFunction::PushPullOutput);
}

#[test]
fn no_pin_carries_two_signals() {
    for (i, first) in SIGNALS.iter().enumerate() {
        for (j, second) in SIGNALS.iter().enumerate() {
            assert_eq!(first.pin() == second.pin(), i == j);
        }
    }
}

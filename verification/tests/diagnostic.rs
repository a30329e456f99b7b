use spi_bringup::diagnostic::{banner, channel_name, report_line, CAPACITY, CHANNEL};

#[test]
fn channel_is_the_first_up_channel() {
    assert_eq!(CHANNEL, 0);
}

#[test]
fn channel_holds_1024_bytes() {
    assert_eq!(CAPACITY, 1024);
}

#[test]
fn channel_is_named_terminal() {
    assert_eq!(channel_name(), "Terminal");
}

#[test]
fn banner_reads_rtt_initialized() {
    assert_eq!(banner(), "RTT initialized");
}

#[test]
fn report_line_appends_a_line_end() {
    assert_eq!(
        report_line("panicked at src/main.rs:50:14: bring-up failed"),
        "panicked at src/main.rs:50:14: bring-up failed\n"
    );
}

#[test]
fn report_line_of_nothing_is_still_a_line() {
    let line = report_line("");
    assert_eq!(line, "\n");
    assert!(!line.is_empty());
}

#[test]
fn report_line_keeps_non_ascii_text() {
    assert_eq!(report_line("Störung ⚠"), "Störung ⚠\n");
}

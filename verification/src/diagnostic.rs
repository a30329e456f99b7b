//! The diagnostic channel: one device-to-host byte stream that carries the
//! start-up banner and, after a fatal fault, the fault report.

use vstd::prelude::*;

verus! {

/// What a channel does with a write that does not fit in its buffer.
#[derive(Clone, Copy, Debug, PartialEq, Eq, Structural)]
pub enum ChannelMode {
    /// Drop the whole write. Never blocks.
    NoBlockSkip,
    /// Keep the part that fits and drop the rest. Never blocks.
    NoBlockTrim,
    /// Wait until the host has drained enough of the buffer. Nothing is lost,
    /// but the writer stalls for as long as nobody reads.
    BlockIfFull,
}

impl ChannelMode {
    /// Whether a write in this mode can stall the writer.
    pub open spec fn blocks(self) -> bool {
        self == ChannelMode::BlockIfFull
    }
}

/// Number of the diagnostic channel among the up channels.
pub const CHANNEL: usize = 0;

/// Capacity of the diagnostic channel's buffer, in bytes.
pub const CAPACITY: usize = 1024;

/// The name under which the host sees the channel.
pub open spec fn name_text() -> Seq<char> {
    "Terminal"@
}

/// The banner that marks a completed channel set-up, without its line end.
pub open spec fn banner_text() -> Seq<char> {
    "RTT initialized"@
}

/// A fault report as it goes on the channel: the description, then a line end.
pub open spec fn report_text(description: Seq<char>) -> Seq<char> {
    description + seq!['\n']
}

/// The name under which the host sees the channel.
pub fn channel_name() -> (name: &'static str)
    ensures
        name@ == name_text(),
{
    "Terminal"
}

/// The banner line, without its line end.
pub fn banner() -> (text: &'static str)
    ensures
        text@ == banner_text(),
{
    "RTT initialized"
}

/// Frames a fault description as one line for the channel. The result is
/// never empty, whatever the description.
pub fn report_line(description: &str) -> (line: String)
    ensures
        line@ == report_text(description@),
        line@.len() == description@.len() + 1,
{
    proof {
        reveal_strlit("\n");
    }
    assert("\n"@ =~= seq!['\n']);
    String::from_str(description).concat("\n")
}

} // verus!

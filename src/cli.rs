use vstd::prelude::*;

verus! {

/// The command line: whether to run without the interface, and a one-shot
/// command.
#[derive(Debug)]
pub struct Args {
    pub tui: bool,
    pub command: Option<Command>,
}

/// One-shot commands that run instead of the interface.
#[derive(Debug)]
pub enum Command {
    /// Set the volume.
    Volume { vol: String },
    /// Pick a song with dmenu.
    Dmenu,
    /// Pick a song with fzf.
    Fzf,
    /// Print the playback status.
    Status,
    /// Pause playback.
    Pause,
    /// Toggle playback.
    Toggle,
}

} // verus!

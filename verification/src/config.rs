//! Logger settings and their defaults.

use crate::level::Level;
use vstd::prelude::*;

verus! {

/// What a logger emits and how it shows it.
#[derive(Clone, Copy, Debug, PartialEq, Eq, Structural)]
pub struct Config {
    /// The least severe level that is emitted.
    pub level: Level,
    /// Whether rendered lines carry colours.
    pub use_colors: bool,
    /// Whether rendered lines begin with the time.
    pub show_timestamp: bool,
}

/// What the writer of a line may do with the styles of its pieces.
#[derive(Clone, Copy, Debug, PartialEq, Eq, Structural)]
pub enum ColorChoice {
    /// Apply them where the stream takes colours.
    Auto,
    /// Write the texts alone, without any escape sequence.
    Never,
}

/// Whether the standard error stream is attached to a terminal, as
/// `atty::is` reports it. Nothing is claimed of the answer.
#[verifier::external_body]
fn stderr_is_terminal() -> (attached: bool) {
    atty::is(atty::Stream::Stderr)
}

impl Config {
    /// The default settings for an output stream: colours exactly when the
    /// stream is attached to a terminal.
    pub open spec fn defaults(attached: bool) -> Config {
        Config { level: Level::Info, use_colors: attached, show_timestamp: true }
    }

    /// What the writer of a line may do with styles under these settings.
    pub open spec fn choice(self) -> ColorChoice {
        if self.use_colors {
            ColorChoice::Auto
        } else {
            ColorChoice::Never
        }
    }

    /// What the writer of a line may do with styles under these settings:
    /// apply them with colours, and never without.
    pub fn color_choice(&self) -> (c: ColorChoice)
        ensures
            c == self.choice(),
    {
        if self.use_colors {
            ColorChoice::Auto
        } else {
            ColorChoice::Never
        }
    }

    /// The default settings for an output stream that is, or is not,
    /// attached to a terminal.
    pub fn for_stream(attached: bool) -> (c: Config)
        ensures
            c == Config::defaults(attached),
    {
        Config { level: Level::Info, use_colors: attached, show_timestamp: true }
    }
}

impl Default for Config {
    /// The default settings for the standard error stream.
    fn default() -> (c: Config)
        ensures
            c.level == Level::Info,
            c.show_timestamp,
            c == Config::defaults(c.use_colors),
    {
        Config::for_stream(stderr_is_terminal())
    }
}

} // verus!

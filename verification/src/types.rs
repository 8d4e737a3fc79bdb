//! The data the prober works on: terminal families, colors, themes, errors,
//! and a snapshot of the process environment.

use vstd::prelude::*;

verus! {

/// The terminal family a probe is aimed at, derived once per probe from the
/// process environment.
#[derive(Copy, Clone, Debug, PartialEq, Eq, Structural)]
pub enum Terminal {
    /// GNU screen: the query must be wrapped in a screen passthrough escape.
    Screen,
    /// tmux: the query must be wrapped in a tmux passthrough escape.
    Tmux,
    /// A plain XTerm-compatible emulator: the query is sent unwrapped.
    XtermCompatible,
    /// The native Windows console: colors come from a console-attribute
    /// query, not from an escape sequence.
    Windows,
    /// A shell embedded in Emacs: known never to answer the query.
    Emacs,
}

/// A background color, 16 bits per channel on a 0..=65535 linear scale
/// regardless of how many hex digits the terminal reported.
#[derive(Copy, Clone, Debug, PartialEq, Eq, Structural)]
pub struct Rgb {
    pub r: u16,
    pub g: u16,
    pub b: u16,
}

/// The binary theme derived from a background color's luminance.
#[derive(Copy, Clone, Debug, PartialEq, Eq, Structural)]
pub enum Theme {
    Light,
    Dark,
}

/// Why a probe produced no color or latency value.
#[derive(Clone, Debug)]
pub enum Error {
    /// The underlying stream failed.
    Io,
    /// A reply arrived but did not parse; carries the offending text.
    Parse(String),
    /// The terminal family or environment is known incapable of answering.
    Unsupported,
    /// The deadline elapsed before a complete reply arrived.
    Timeout,
}

/// A read-only snapshot of the process environment and platform, handed in
/// by the caller so the family detector and the fallback parser stay pure.
#[derive(Clone, Debug)]
pub struct Env {
    /// Whether the embedded-shell marker (`INSIDE_EMACS`) is set.
    pub inside_emacs: bool,
    /// Whether the multiplexer marker (`TMUX`) is set.
    pub tmux: bool,
    /// The terminal-type variable (`TERM`), if set.
    pub term: Option<String>,
    /// The terminal-program marker (`TERM_PROGRAM`), if set.
    pub term_program: Option<String>,
    /// Whether the modern-terminal-host marker (`WT_SESSION`) is set.
    pub wt_session: bool,
    /// Whether the platform's default terminal is the native console.
    pub native_console: bool,
    /// The foreground/background color-index variable (`COLORFGBG`), if set.
    pub colorfgbg: Option<String>,
}

} // verus!

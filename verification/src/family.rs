//! Terminal-family detection: a pure function of the environment snapshot,
//! first match wins. The embedded-shell marker comes first, then the
//! multiplexer marker, then a screen-prefixed terminal type; on a
//! native-console platform a known terminal-program or terminal-host marker
//! still selects the XTerm-compatible protocol, and otherwise the platform
//! default applies.

use vstd::prelude::*;

use crate::types::Env;
use crate::types::Terminal;

verus! {

/// How a background color can be obtained for a family.
#[derive(Copy, Clone, Debug, PartialEq, Eq, Structural)]
pub enum ColorSource {
    /// Query the terminal in band with an escape sequence.
    EscapeSequenceProbe,
    /// Read the native console's attribute word.
    NativeAttributeQuery,
    /// The family is known never to answer.
    KnownUnsupported,
}

/// Whether the terminal type begins with the screen multiplexer's name.
pub open spec fn screen_prefixed_spec(t: Seq<char>) -> bool {
    t.len() >= 6 && t[0] == 's' && t[1] == 'c' && t[2] == 'r' && t[3] == 'e' && t[4] == 'e' && t[5]
        == 'n'
}

/// Whether the terminal-program marker names the known XTerm-compatible
/// editor terminal.
pub open spec fn vscode_program_spec(p: Seq<char>) -> bool {
    p.len() == 6 && p[0] == 'v' && p[1] == 's' && p[2] == 'c' && p[3] == 'o' && p[4] == 'd' && p[5]
        == 'e'
}

/// The family the environment selects, first match wins.
pub open spec fn spec_terminal(env: Env) -> Terminal {
    if env.inside_emacs {
        Terminal::Emacs
    } else if env.tmux {
        Terminal::Tmux
    } else if env.term matches Some(t) && screen_prefixed_spec(t@) {
        Terminal::Screen
    } else if env.native_console {
        if (env.term_program matches Some(p) && vscode_program_spec(p@)) || env.wt_session {
            Terminal::XtermCompatible
        } else {
            Terminal::Windows
        }
    } else {
        Terminal::XtermCompatible
    }
}

/// The color source a family admits.
pub open spec fn spec_color_source(term: Terminal) -> ColorSource {
    match term {
        Terminal::Emacs => ColorSource::KnownUnsupported,
        Terminal::Windows => ColorSource::NativeAttributeQuery,
        _ => ColorSource::EscapeSequenceProbe,
    }
}

fn screen_prefixed(t: &str) -> (r: bool)
    ensures
        r == screen_prefixed_spec(t@),
{
    if t.unicode_len() < 6 {
        return false;
    }
    t.get_char(0) == 's' && t.get_char(1) == 'c' && t.get_char(2) == 'r' && t.get_char(3) == 'e'
        && t.get_char(4) == 'e' && t.get_char(5) == 'n'
}

fn vscode_program(p: &str) -> (r: bool)
    ensures
        r == vscode_program_spec(p@),
{
    if p.unicode_len() != 6 {
        return false;
    }
    p.get_char(0) == 'v' && p.get_char(1) == 's' && p.get_char(2) == 'c' && p.get_char(3) == 'o'
        && p.get_char(4) == 'd' && p.get_char(5) == 'e'
}

/// Detects the terminal family from the environment snapshot. Pure: no
/// input/output and no failure mode.
pub fn terminal(env: &Env) -> (t: Terminal)
    ensures
        t == spec_terminal(*env),
{
    if env.inside_emacs {
        return Terminal::Emacs;
    }
    if env.tmux {
        return Terminal::Tmux;
    }
    let screen = match &env.term {
        Some(t) => screen_prefixed(t.as_str()),
        None => false,
    };
    if screen {
        return Terminal::Screen;
    }
    if env.native_console {
        let vscode = match &env.term_program {
            Some(p) => vscode_program(p.as_str()),
            None => false,
        };
        if vscode || env.wt_session {
            Terminal::XtermCompatible
        } else {
            Terminal::Windows
        }
    } else {
        Terminal::XtermCompatible
    }
}

/// Maps a family to the way its background color can be obtained.
pub fn color_source(term: Terminal) -> (s: ColorSource)
    ensures
        s == spec_color_source(term),
{
    match term {
        Terminal::Emacs => ColorSource::KnownUnsupported,
        Terminal::Windows => ColorSource::NativeAttributeQuery,
        _ => ColorSource::EscapeSequenceProbe,
    }
}

} // verus!

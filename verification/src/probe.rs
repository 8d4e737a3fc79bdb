//! The probe orchestrator: family detection selects the protocol, the
//! query is written under raw mode, the reply is read under the deadline,
//! the mode is restored on every exit path, and only then is any failure
//! surfaced; the environment-variable fallback applies when the active
//! probe is inapplicable or failed, the primary result winning when both
//! succeed.

use vstd::prelude::*;

use crate::decode::decode_x11_color;
use crate::decode::spec_decode_x11;
use crate::fallback::fallback_color;
use crate::fallback::fallback_ok;
use crate::fallback::from_env_colorfgbg;
use crate::family::color_source;
use crate::family::spec_color_source;
use crate::family::spec_terminal;
use crate::family::terminal;
use crate::family::ColorSource;
use crate::luma::classify;
use crate::luma::spec_classify;
use crate::query::query_bytes;
use crate::query::QueryPurpose;
use crate::scan::all_ascii;
use crate::scan::ascii_chars;
use crate::scan::scan_color;
use crate::scan::scan_color_from;
use crate::scan::scan_color_response;
use crate::scan::ReadEvent;
use crate::term_io::async_stdin;
use crate::term_io::disable_raw_mode;
use crate::term_io::elapsed_ms;
use crate::term_io::enable_raw_mode;
use crate::term_io::monotonic_now;
use crate::term_io::new_runtime;
use crate::term_io::read_byte_within;
use crate::term_io::shutdown_runtime;
use crate::term_io::stderr_flush;
use crate::term_io::stderr_is_terminal;
use crate::term_io::stderr_write_all;
use crate::term_io::stdin_is_terminal;
use crate::term_io::stdout_is_terminal;
use crate::term_io::utf8_lossy;
use crate::types::Env;
use crate::types::Error;
use crate::types::Rgb;
use crate::types::Terminal;
use crate::types::Theme;

verus! {

/// The primary outcome wins; the fallback counts only when the primary
/// failed and the fallback succeeded; otherwise the primary error stands.
pub open spec fn spec_prefer(primary: Result<Rgb, Error>, fallback: Result<Rgb, Error>) -> Result<
    Rgb,
    Error,
> {
    if primary is Ok {
        primary
    } else if fallback is Ok {
        fallback
    } else {
        primary
    }
}

/// Chains a primary probe outcome with a fallback outcome, preferring the
/// primary.
pub fn prefer_primary(primary: Result<Rgb, Error>, fallback: Result<Rgb, Error>) -> (r: Result<
    Rgb,
    Error,
>)
    ensures
        r == spec_prefer(primary, fallback),
{
    if primary.is_ok() {
        primary
    } else if fallback.is_ok() {
        fallback
    } else {
        primary
    }
}

/// Reads the color reply byte by byte until its terminator, the deadline
/// measured from the call, whole milliseconds. Whatever arrives, the result
/// is what the reader protocol yields on some stream of observations; a
/// failure is only ever a timeout or a stream failure.
fn read_color_payload(
    rt: &tokio::runtime::Runtime,
    stdin: &mut tokio::io::Stdin,
    timeout_ms: u64,
) -> (r: Result<Vec<u8>, Error>)
    ensures
        (r matches Ok(p) ==> exists|events: Seq<ReadEvent>| scan_color(events) == Ok::<
            Seq<u8>,
            Error,
        >(p@)),
        (r matches Err(e) ==> e is Timeout || e is Io),
{
    let start = monotonic_now();
    let mut acc: Vec<u8> = Vec::new();
    let mut started = false;
    let mut awaiting_tail = false;
    // The wall-clock deadline bounds the read; the counter only gives the
    // loop a measure, and lapsing it reports the same timeout.
    let mut reads_left: u64 = u64::MAX;
    let ghost mut log: Seq<ReadEvent> = Seq::empty();
    proof {
        assert forall|rest: Seq<ReadEvent>| #[trigger] scan_color_from(
            log + rest,
            false,
            false,
            Seq::empty(),
        ) == scan_color_from(rest, started, awaiting_tail, acc@) by {
            assert(log + rest =~= rest);
        }
    }
    loop
        invariant
            forall|rest: Seq<ReadEvent>| #[trigger] scan_color_from(
                log + rest,
                false,
                false,
                Seq::empty(),
            ) == scan_color_from(rest, started, awaiting_tail, acc@),
        decreases reads_left,
    {
        let spent = elapsed_ms(&start);
        if spent >= timeout_ms || reads_left == 0 {
            return Err(Error::Timeout);
        }
        reads_left = reads_left - 1;
        let ev = read_byte_within(rt, stdin, timeout_ms - spent);
        match ev {
            ReadEvent::TimedOut => {
                return Err(Error::Timeout);
            },
            ReadEvent::Failed => {
                return Err(Error::Io);
            },
            ReadEvent::Byte(b) => {
                if awaiting_tail || (started && b == 7) {
                    proof {
                        let w = log + seq![ev];
                        assert(scan_color_from(log + seq![ev], false, false, Seq::empty())
                            == scan_color_from(seq![ev], started, awaiting_tail, acc@));
                        assert(seq![ev][0] == ev);
                        assert(scan_color_from(seq![ev], started, awaiting_tail, acc@) == Ok::<
                            Seq<u8>,
                            Error,
                        >(acc@));
                        assert(scan_color(w) == Ok::<Seq<u8>, Error>(acc@));
                    }
                    return Ok(acc);
                }
                let ghost old_log = log;
                let ghost old_started = started;
                let ghost old_awaiting = awaiting_tail;
                let ghost old_acc = acc@;
                if started && b == 0x1b {
                    awaiting_tail = true;
                } else if started {
                    acc.push(b);
                } else if b == 58 {
                    started = true;
                }
                proof {
                    log = log + seq![ev];
                    assert forall|rest: Seq<ReadEvent>| #[trigger] scan_color_from(
                        log + rest,
                        false,
                        false,
                        Seq::empty(),
                    ) == scan_color_from(rest, started, awaiting_tail, acc@) by {
                        let mid = seq![ev] + rest;
                        assert(log + rest =~= old_log + mid);
                        assert(scan_color_from(old_log + mid, false, false, Seq::empty())
                            == scan_color_from(mid, old_started, old_awaiting, old_acc));
                        assert(mid[0] == ev);
                        assert(mid.skip(1) =~= rest);
                        assert(scan_color_from(mid, old_started, old_awaiting, old_acc)
                            == scan_color_from(rest, started, awaiting_tail, acc@));
                    }
                }
            },
        }
    }
}

/// Reads until the latency reply's `n` terminator, under the deadline. No
/// payload is kept; a failure is only ever a timeout or a stream failure.
fn read_latency_ack(
    rt: &tokio::runtime::Runtime,
    stdin: &mut tokio::io::Stdin,
    timeout_ms: u64,
) -> (r: Result<(), Error>)
    ensures
        (r matches Err(e) ==> e is Timeout || e is Io),
{
    let start = monotonic_now();
    // As in the color read, the counter only gives the loop a measure.
    let mut reads_left: u64 = u64::MAX;
    loop
        decreases reads_left,
    {
        let spent = elapsed_ms(&start);
        if spent >= timeout_ms || reads_left == 0 {
            return Err(Error::Timeout);
        }
        reads_left = reads_left - 1;
        match read_byte_within(rt, stdin, timeout_ms - spent) {
            ReadEvent::TimedOut => {
                return Err(Error::Timeout);
            },
            ReadEvent::Failed => {
                return Err(Error::Io);
            },
            ReadEvent::Byte(b) => {
                if b == 110 {
                    return Ok(());
                }
            },
        }
    }
}

/// Queries the terminal for its background color over the escape-sequence
/// protocol of the given family. The probe runs only when standard input,
/// output and error are all attached to a terminal; raw mode is restored on
/// every exit path before any failure is surfaced, and a restoration
/// failure is reported only when no prior failure exists. The reply is
/// whatever the terminal sends, so no clause can name the color; what holds
/// whatever came back is that any success is the decode of some reply
/// payload, and any failure falls under the probe's error taxonomy. The
/// query bytes, the reader protocol and the decode are pinned exactly by
/// `query_bytes`, `scan_color_response` and `decode_x11_color`.
pub fn from_xterm(term: Terminal, timeout_ms: u64) -> (r: Result<Rgb, Error>)
    ensures
        (r matches Err(e) ==> e is Unsupported || e is Io || e is Timeout || e is Parse),
        (r matches Ok(c) ==> exists|s: Seq<char>| spec_decode_x11(s) == Some((c.r, c.g, c.b))),
{
    if !stdin_is_terminal() || !stdout_is_terminal() || !stderr_is_terminal() {
        return Err(Error::Unsupported);
    }
    let rt = match new_runtime() {
        Ok(rt) => rt,
        Err(e) => {
            return Err(e);
        },
    };
    let mut input = async_stdin();
    let query = query_bytes(term, QueryPurpose::Color);
    if let Err(e) = enable_raw_mode() {
        shutdown_runtime(rt);
        return Err(e);
    }
    let sent = match stderr_write_all(&query) {
        Ok(()) => stderr_flush(),
        Err(e) => Err(e),
    };
    let outcome = match sent {
        Ok(()) => read_color_payload(&rt, &mut input, timeout_ms),
        Err(e) => Err(e),
    };
    let restore = disable_raw_mode();
    shutdown_runtime(rt);
    let payload = match outcome {
        Ok(p) => p,
        Err(e) => {
            return Err(e);
        },
    };
    if let Err(e) = restore {
        return Err(e);
    }
    let text = utf8_lossy(&payload);
    match decode_x11_color(text.as_str()) {
        Ok((cr, cg, cb)) => Ok(Rgb { r: cr, g: cg, b: cb }),
        Err(e) => Err(e),
    }
}

/// Measures the round-trip latency of a device-status report, in whole
/// milliseconds from the flush of the query to the receipt of the
/// terminator. The probe runs only when standard input, output and error
/// are all attached to a terminal; it short-circuits to `Unsupported`
/// before mutating terminal mode otherwise, and raw mode is restored on
/// every exit path.
pub fn xterm_latency(timeout_ms: u64) -> (r: Result<u64, Error>)
    ensures
        (r matches Err(e) ==> e is Timeout || e is Io || e is Unsupported),
{
    if !stdin_is_terminal() || !stdout_is_terminal() || !stderr_is_terminal() {
        return Err(Error::Unsupported);
    }
    let rt = match new_runtime() {
        Ok(rt) => rt,
        Err(e) => {
            return Err(e);
        },
    };
    let mut input = async_stdin();
    let query = query_bytes(Terminal::XtermCompatible, QueryPurpose::Latency);
    if let Err(e) = enable_raw_mode() {
        shutdown_runtime(rt);
        return Err(e);
    }
    let sent = match stderr_write_all(&query) {
        Ok(()) => stderr_flush(),
        Err(e) => Err(e),
    };
    let start = monotonic_now();
    let ack = match sent {
        Ok(()) => read_latency_ack(&rt, &mut input, timeout_ms),
        Err(e) => Err(e),
    };
    let elapsed = elapsed_ms(&start);
    let restore = disable_raw_mode();
    shutdown_runtime(rt);
    if let Err(e) = ack {
        return Err(e);
    }
    if let Err(e) = restore {
        return Err(e);
    }
    Ok(elapsed)
}

/// Decodes a color probe from a recorded reply stream: the payload the
/// reader protocol extracts, decoded as a hex triplet. On an ASCII payload
/// the outcome is pinned exactly; the reader's failure is surfaced as it
/// stands.
pub fn rgb_from_events(events: &Vec<ReadEvent>) -> (r: Result<Rgb, Error>)
    ensures
        (scan_color(events@) matches Err(e) ==> (r matches Err(e2) && e2 == e)),
        (scan_color(events@) matches Ok(p) ==> (all_ascii(p) ==> {
            let d = spec_decode_x11(ascii_chars(p));
            ((d matches Some(c) ==> (r matches Ok(rc) && rc.r == c.0 && rc.g == c.1 && rc.b
                == c.2)) && (d is None ==> (r matches Err(e) && e is Parse)))
        })),
{
    let payload = match scan_color_response(events) {
        Ok(p) => p,
        Err(e) => {
            return Err(e);
        },
    };
    let text = utf8_lossy(&payload);
    match decode_x11_color(text.as_str()) {
        Ok((cr, cg, cb)) => Ok(Rgb { r: cr, g: cg, b: cb }),
        Err(e) => Err(e),
    }
}

/// Determines the background color: the family's active probe first, then
/// the environment-variable fallback; the first success wins, the primary
/// preferred. When the fallback applies, some color is always returned;
/// a family without an escape-sequence probe never touches the terminal,
/// so there the result is fully determined: the fallback's table entry
/// when the variable parses, `Unsupported` when it does not.
pub fn rgb(env: &Env, timeout_ms: u64) -> (r: Result<Rgb, Error>)
    ensures
        fallback_ok(*env) ==> r is Ok,
        spec_color_source(spec_terminal(*env)) != ColorSource::EscapeSequenceProbe && fallback_ok(
            *env,
        ) ==> r == Ok::<Rgb, Error>(fallback_color(*env)),
        spec_color_source(spec_terminal(*env)) != ColorSource::EscapeSequenceProbe && !fallback_ok(
            *env,
        ) ==> (r matches Err(e) && e is Unsupported),
{
    let term = terminal(env);
    let primary = match color_source(term) {
        ColorSource::EscapeSequenceProbe => from_xterm(term, timeout_ms),
        _ => Err(Error::Unsupported),
    };
    let fallback = from_env_colorfgbg(env);
    prefer_primary(primary, fallback)
}

/// Measures the round-trip latency for the detected family. The embedded
/// shell and the native console never probe: both yield a fixed zero
/// duration.
pub fn latency(env: &Env, timeout_ms: u64) -> (r: Result<u64, Error>)
    ensures
        spec_terminal(*env) is Emacs ==> r == Ok::<u64, Error>(0u64),
        spec_terminal(*env) is Windows ==> r == Ok::<u64, Error>(0u64),
        (r matches Err(e) ==> e is Timeout || e is Io || e is Unsupported),
{
    let term = terminal(env);
    match term {
        Terminal::Emacs => Ok(0),
        Terminal::Windows => Ok(0),
        _ => xterm_latency(timeout_ms),
    }
}

/// The theme outcome a color outcome dictates: a color is classified, an
/// error propagates unchanged. No default theme is ever substituted for a
/// failure.
pub open spec fn spec_theme_outcome(outcome: Result<Rgb, Error>) -> Result<Theme, Error> {
    match outcome {
        Ok(c) => Ok(spec_classify(c)),
        Err(e) => Err(e),
    }
}

/// Classifies a color probe's outcome: the color's luminance class on
/// success, the probe's own error unchanged on failure.
pub fn theme_from_rgb(outcome: Result<Rgb, Error>) -> (r: Result<Theme, Error>)
    ensures
        r == spec_theme_outcome(outcome),
{
    match outcome {
        Ok(c) => Ok(classify(c)),
        Err(e) => Err(e),
    }
}

/// Determines the theme: the background color as `rgb` yields it, then its
/// luminance classification through `theme_from_rgb`, so a probe error
/// propagates unchanged and no default theme stands in for a failure. On a
/// family without an escape-sequence probe the result is fully determined
/// by the fallback variable.
pub fn theme(env: &Env, timeout_ms: u64) -> (r: Result<Theme, Error>)
    ensures
        fallback_ok(*env) ==> r is Ok,
        spec_color_source(spec_terminal(*env)) != ColorSource::EscapeSequenceProbe && fallback_ok(
            *env,
        ) ==> r == Ok::<Theme, Error>(spec_classify(fallback_color(*env))),
        spec_color_source(spec_terminal(*env)) != ColorSource::EscapeSequenceProbe && !fallback_ok(
            *env,
        ) ==> (r matches Err(e) && e is Unsupported),
{
    theme_from_rgb(rgb(env, timeout_ms))
}

} // verus!

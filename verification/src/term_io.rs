//! The trusted boundary to the terminal device and the clock: raw mode,
//! the error stream the queries are written to, the asynchronous standard
//! input the replies are read from, and a monotonic clock for the deadline.
//! Every function here is believed, not verified; each doc comment names
//! the outside function relied on.

use vstd::prelude::*;

use crate::scan::all_ascii;
use crate::scan::ascii_chars;
use crate::scan::ReadEvent;
use crate::types::Error;

verus! {

#[verifier::external_type_specification]
#[verifier::external_body]
pub struct ExRuntime(tokio::runtime::Runtime);

#[verifier::external_type_specification]
#[verifier::external_body]
pub struct ExStdin(tokio::io::Stdin);

#[verifier::external_type_specification]
#[verifier::external_body]
pub struct ExInstant(std::time::Instant);

/// Relies on crossterm::terminal::enable_raw_mode: switches the terminal
/// out of line-buffered, echoing mode for the byte-at-a-time read.
#[verifier::external_body]
pub(crate) fn enable_raw_mode() -> (r: Result<(), Error>)
    ensures
        (r matches Err(e) ==> e is Io),
{
    match crossterm::terminal::enable_raw_mode() {
        Ok(()) => Ok(()),
        Err(_) => Err(Error::Io),
    }
}

/// Relies on crossterm::terminal::disable_raw_mode: restores the terminal's
/// prior mode.
#[verifier::external_body]
pub(crate) fn disable_raw_mode() -> (r: Result<(), Error>)
    ensures
        (r matches Err(e) ==> e is Io),
{
    match crossterm::terminal::disable_raw_mode() {
        Ok(()) => Ok(()),
        Err(_) => Err(Error::Io),
    }
}

/// Relies on std::io::IsTerminal::is_terminal on standard input.
#[verifier::external_body]
pub(crate) fn stdin_is_terminal() -> (r: bool) {
    std::io::IsTerminal::is_terminal(&std::io::stdin())
}

/// Relies on std::io::IsTerminal::is_terminal on standard output.
#[verifier::external_body]
pub(crate) fn stdout_is_terminal() -> (r: bool) {
    std::io::IsTerminal::is_terminal(&std::io::stdout())
}

/// Relies on std::io::IsTerminal::is_terminal on standard error.
#[verifier::external_body]
pub(crate) fn stderr_is_terminal() -> (r: bool) {
    std::io::IsTerminal::is_terminal(&std::io::stderr())
}

/// Relies on std::io::Write::write_all on the standard error stream, chosen
/// over standard output so the query still reaches the terminal device when
/// output is redirected.
#[verifier::external_body]
pub(crate) fn stderr_write_all(bytes: &Vec<u8>) -> (r: Result<(), Error>)
    ensures
        (r matches Err(e) ==> e is Io),
{
    match std::io::Write::write_all(&mut std::io::stderr(), bytes.as_slice()) {
        Ok(()) => Ok(()),
        Err(_) => Err(Error::Io),
    }
}

/// Relies on std::io::Write::flush on the standard error stream.
#[verifier::external_body]
pub(crate) fn stderr_flush() -> (r: Result<(), Error>)
    ensures
        (r matches Err(e) ==> e is Io),
{
    match std::io::Write::flush(&mut std::io::stderr()) {
        Ok(()) => Ok(()),
        Err(_) => Err(Error::Io),
    }
}

/// Relies on tokio::runtime::Runtime::new: builds the runtime that drives
/// the timed read; fails only when the operating system refuses resources.
#[verifier::external_body]
pub(crate) fn new_runtime() -> (r: Result<tokio::runtime::Runtime, Error>)
    ensures
        (r matches Err(e) ==> e is Io),
{
    match tokio::runtime::Runtime::new() {
        Ok(rt) => Ok(rt),
        Err(_) => Err(Error::Io),
    }
}

/// Relies on tokio::io::stdin: an asynchronous handle on standard input.
#[verifier::external_body]
pub(crate) fn async_stdin() -> (r: tokio::io::Stdin) {
    tokio::io::stdin()
}

/// Relies on tokio::time::timeout racing tokio::io::AsyncReadExt::read_exact
/// for one byte under tokio::runtime::Runtime::block_on: the race yields
/// exactly one of a byte, a lapse of the budget, or a stream failure. The
/// timeout builds its timer eagerly and tokio requires a runtime context
/// for that, so the runtime is entered, via Runtime::enter, before the
/// race is built.
#[verifier::external_body]
pub(crate) fn read_byte_within(
    rt: &tokio::runtime::Runtime,
    stdin: &mut tokio::io::Stdin,
    budget_ms: u64,
) -> (ev: ReadEvent) {
    let mut buf = [0u8; 1];
    let budget = std::time::Duration::from_millis(budget_ms);
    let context = rt.enter();
    let race = tokio::time::timeout(budget, tokio::io::AsyncReadExt::read_exact(stdin, &mut buf));
    let outcome = rt.block_on(race);
    drop(context);
    match outcome {
        Err(_) => ReadEvent::TimedOut,
        Ok(Err(_)) => ReadEvent::Failed,
        Ok(Ok(_)) => ReadEvent::Byte(buf[0]),
    }
}

/// Relies on tokio::runtime::Runtime::shutdown_background: releases the
/// runtime without waiting for a still-pending standard-input read.
#[verifier::external_body]
pub(crate) fn shutdown_runtime(rt: tokio::runtime::Runtime) {
    rt.shutdown_background();
}

/// Relies on std::time::Instant::now: a reading of the monotonic clock.
#[verifier::external_body]
pub(crate) fn monotonic_now() -> (t: std::time::Instant) {
    std::time::Instant::now()
}

/// Relies on std::time::Instant::elapsed; the result is converted to whole
/// milliseconds, saturating at the largest representable value.
#[verifier::external_body]
pub(crate) fn elapsed_ms(start: &std::time::Instant) -> (ms: u64) {
    match u64::try_from(start.elapsed().as_millis()) {
        Ok(ms) => ms,
        Err(_) => u64::MAX,
    }
}

/// Relies on String::from_utf8_lossy: a byte below 128 decodes to the
/// character of the same value, so an ASCII reply passes through unchanged.
#[verifier::external_body]
pub(crate) fn utf8_lossy(bytes: &Vec<u8>) -> (s: String)
    ensures
        all_ascii(bytes@) ==> s@ == ascii_chars(bytes@),
{
    String::from_utf8_lossy(bytes.as_slice()).into_owned()
}

} // verus!

//! The timed response reader's byte protocol, as a pure machine over the
//! observed stream. For a color reply, bytes are discarded until a `:`
//! marks the payload start; thereafter bytes accumulate until a BEL ends
//! the reply, or an ESC does, in which case one further byte (the `\` of a
//! String Terminator) is consumed and discarded. For a latency reply the
//! read ends at the first `n` and keeps nothing.

use vstd::prelude::*;

use crate::types::Error;

verus! {

/// One observation made while reading the reply stream: a byte, a lapse of
/// the deadline, or a stream failure.
#[derive(Copy, Clone, Debug, PartialEq, Eq, Structural)]
pub enum ReadEvent {
    Byte(u8),
    TimedOut,
    Failed,
}

/// What the color read yields from the events still to come, starting in
/// the state given by `started` (payload start seen), `awaiting_tail` (an
/// ESC was seen, one byte remains to discard) and `acc` (payload so far).
/// A stream that ends without a terminator yields a timeout, as the real
/// read would once its deadline lapses.
pub open spec fn scan_color_from(
    events: Seq<ReadEvent>,
    started: bool,
    awaiting_tail: bool,
    acc: Seq<u8>,
) -> Result<Seq<u8>, Error>
    decreases events.len(),
{
    if events.len() == 0 {
        Err(Error::Timeout)
    } else {
        match events[0] {
            ReadEvent::TimedOut => Err(Error::Timeout),
            ReadEvent::Failed => Err(Error::Io),
            ReadEvent::Byte(b) => {
                if awaiting_tail {
                    Ok(acc)
                } else if started && b == 7 {
                    Ok(acc)
                } else if started && b == 0x1b {
                    scan_color_from(events.skip(1), true, true, acc)
                } else if started {
                    scan_color_from(events.skip(1), true, false, acc.push(b))
                } else if b == 58 {
                    scan_color_from(events.skip(1), true, false, acc)
                } else {
                    scan_color_from(events.skip(1), false, false, acc)
                }
            },
        }
    }
}

/// The color read over a whole stream, from the initial state.
pub open spec fn scan_color(events: Seq<ReadEvent>) -> Result<Seq<u8>, Error> {
    scan_color_from(events, false, false, Seq::empty())
}

/// Whether every byte of a payload is ASCII.
pub open spec fn all_ascii(p: Seq<u8>) -> bool {
    forall|i: int| 0 <= i < p.len() ==> p[i] < 128
}

/// An ASCII payload read as characters, byte for byte.
pub open spec fn ascii_chars(p: Seq<u8>) -> Seq<char> {
    p.map_values(|b: u8| b as char)
}

/// What the latency read yields: it completes at the first `n` byte and
/// retains no payload.
pub open spec fn scan_latency(events: Seq<ReadEvent>) -> Result<(), Error>
    decreases events.len(),
{
    if events.len() == 0 {
        Err(Error::Timeout)
    } else {
        match events[0] {
            ReadEvent::TimedOut => Err(Error::Timeout),
            ReadEvent::Failed => Err(Error::Io),
            ReadEvent::Byte(b) => {
                if b == 110 {
                    Ok(())
                } else {
                    scan_latency(events.skip(1))
                }
            },
        }
    }
}

/// Runs the color read over a recorded stream of events, yielding the
/// payload between the `:` and the terminator, or the failure the stream
/// dictates.
pub fn scan_color_response(events: &Vec<ReadEvent>) -> (r: Result<Vec<u8>, Error>)
    ensures
        (r matches Ok(p) ==> scan_color(events@) == Ok::<Seq<u8>, Error>(p@)),
        (r matches Err(e) ==> scan_color(events@) == Err::<Seq<u8>, Error>(e)),
{
    let mut acc: Vec<u8> = Vec::new();
    let mut started = false;
    let mut awaiting_tail = false;
    let mut idx: usize = 0;
    proof {
        assert(events@.skip(0) =~= events@);
    }
    while idx < events.len()
        invariant
            idx <= events@.len(),
            scan_color(events@) == scan_color_from(
                events@.skip(idx as int),
                started,
                awaiting_tail,
                acc@,
            ),
        decreases events@.len() - idx,
    {
        let ev = events[idx];
        proof {
            let tail = events@.skip(idx as int);
            assert(tail[0] == events@[idx as int]);
            assert(tail.skip(1) =~= events@.skip(idx + 1));
        }
        match ev {
            ReadEvent::TimedOut => {
                return Err(Error::Timeout);
            },
            ReadEvent::Failed => {
                return Err(Error::Io);
            },
            ReadEvent::Byte(b) => {
                if awaiting_tail {
                    return Ok(acc);
                } else if started && b == 7 {
                    return Ok(acc);
                } else if started && b == 0x1b {
                    awaiting_tail = true;
                } else if started {
                    acc.push(b);
                } else if b == 58 {
                    started = true;
                }
            },
        }
        idx = idx + 1;
    }
    proof {
        assert(events@.skip(idx as int).len() == 0);
    }
    Err(Error::Timeout)
}

/// Runs the latency read over a recorded stream of events.
pub fn scan_latency_response(events: &Vec<ReadEvent>) -> (r: Result<(), Error>)
    ensures
        r == scan_latency(events@),
{
    let mut idx: usize = 0;
    proof {
        assert(events@.skip(0) =~= events@);
    }
    while idx < events.len()
        invariant
            idx <= events@.len(),
            scan_latency(events@) == scan_latency(events@.skip(idx as int)),
        decreases events@.len() - idx,
    {
        let ev = events[idx];
        proof {
            let tail = events@.skip(idx as int);
            assert(tail[0] == events@[idx as int]);
            assert(tail.skip(1) =~= events@.skip(idx + 1));
        }
        match ev {
            ReadEvent::TimedOut => {
                return Err(Error::Timeout);
            },
            ReadEvent::Failed => {
                return Err(Error::Io);
            },
            ReadEvent::Byte(b) => {
                if b == 110 {
                    return Ok(());
                }
            },
        }
        idx = idx + 1;
    }
    proof {
        assert(events@.skip(idx as int).len() == 0);
    }
    Err(Error::Timeout)
}

/// A color read over a stream that never carries a BEL or ESC byte can
/// only time out, whatever state it starts in: without a terminator it
/// never completes.
pub proof fn lemma_color_scan_needs_terminator(events: Seq<ReadEvent>, started: bool, acc: Seq<u8>)
    requires
        forall|i: int| 0 <= i < events.len() ==> ((#[trigger] events[i]) matches ReadEvent::Byte(b)
            && b != 7 && b != 0x1b),
    ensures
        scan_color_from(events, started, false, acc) == Err::<Seq<u8>, Error>(Error::Timeout),
    decreases events.len(),
{
    if events.len() > 0 {
        assert(events[0] matches ReadEvent::Byte(b) && b != 7 && b != 0x1b);
        assert forall|i: int| 0 <= i < events.skip(1).len() implies ((#[trigger] events.skip(1)[i])
            matches ReadEvent::Byte(b) && b != 7 && b != 0x1b) by {
            assert(events.skip(1)[i] == events[i + 1]);
        }
        match events[0] {
            ReadEvent::Byte(b) => {
                if started {
                    lemma_color_scan_needs_terminator(events.skip(1), true, acc.push(b));
                } else if b == 58 {
                    lemma_color_scan_needs_terminator(events.skip(1), true, acc);
                } else {
                    lemma_color_scan_needs_terminator(events.skip(1), false, acc);
                }
            },
            _ => {},
        }
    }
}

/// A latency read over a stream that never carries an `n` byte can only
/// time out.
pub proof fn lemma_latency_scan_needs_terminator(events: Seq<ReadEvent>)
    requires
        forall|i: int| 0 <= i < events.len() ==> ((#[trigger] events[i]) matches ReadEvent::Byte(b)
            && b != 110),
    ensures
        scan_latency(events) == Err::<(), Error>(Error::Timeout),
    decreases events.len(),
{
    if events.len() > 0 {
        assert(events[0] matches ReadEvent::Byte(b) && b != 110);
        assert forall|i: int| 0 <= i < events.skip(1).len() implies ((#[trigger] events.skip(1)[i])
            matches ReadEvent::Byte(b) && b != 110) by {
            assert(events.skip(1)[i] == events[i + 1]);
        }
        lemma_latency_scan_needs_terminator(events.skip(1));
    }
}

} // verus!

//! The exact byte sequences written to the terminal: the XTerm
//! background-color query, wrapped in the multiplexer's passthrough escape
//! under tmux or screen, and the device-status report used as a latency
//! probe. The trailing ETX of the passthrough forms is kept byte for byte
//! for compatibility with real multiplexers.

use vstd::prelude::*;

use crate::types::Terminal;

verus! {

/// What a query is for: the background color, or only the reply's
/// round-trip time.
#[derive(Copy, Clone, Debug, PartialEq, Eq, Structural)]
pub enum QueryPurpose {
    Color,
    Latency,
}

/// The bytes the transmitter writes for a family and purpose.
pub open spec fn spec_query_bytes(term: Terminal, purpose: QueryPurpose) -> Seq<u8> {
    if purpose is Latency {
        seq![0x1bu8, 0x5b, 0x35, 0x6e]
    } else if term is Tmux {
        seq![
            0x1bu8,
            0x50,
            0x74,
            0x6d,
            0x75,
            0x78,
            0x3b,
            0x1b,
            0x1b,
            0x5d,
            0x31,
            0x31,
            0x3b,
            0x3f,
            0x07,
            0x1b,
            0x5c,
            0x03,
        ]
    } else if term is Screen {
        seq![0x1bu8, 0x50, 0x1b, 0x5d, 0x31, 0x31, 0x3b, 0x3f, 0x07, 0x1b, 0x5c, 0x03]
    } else {
        seq![0x1bu8, 0x5d, 0x31, 0x31, 0x3b, 0x3f, 0x1b, 0x5c]
    }
}

/// Produces the exact byte sequence to write for a family and purpose.
pub fn query_bytes(term: Terminal, purpose: QueryPurpose) -> (q: Vec<u8>)
    ensures
        q@ == spec_query_bytes(term, purpose),
{
    let mut q: Vec<u8> = Vec::new();
    match purpose {
        QueryPurpose::Latency => {
            q.push(0x1b);
            q.push(0x5b);
            q.push(0x35);
            q.push(0x6e);
        },
        QueryPurpose::Color => {
            match term {
                Terminal::Tmux => {
                    q.push(0x1b);
                    q.push(0x50);
                    q.push(0x74);
                    q.push(0x6d);
                    q.push(0x75);
                    q.push(0x78);
                    q.push(0x3b);
                    q.push(0x1b);
                    q.push(0x1b);
                    q.push(0x5d);
                    q.push(0x31);
                    q.push(0x31);
                    q.push(0x3b);
                    q.push(0x3f);
                    q.push(0x07);
                    q.push(0x1b);
                    q.push(0x5c);
                    q.push(0x03);
                },
                Terminal::Screen => {
                    q.push(0x1b);
                    q.push(0x50);
                    q.push(0x1b);
                    q.push(0x5d);
                    q.push(0x31);
                    q.push(0x31);
                    q.push(0x3b);
                    q.push(0x3f);
                    q.push(0x07);
                    q.push(0x1b);
                    q.push(0x5c);
                    q.push(0x03);
                },
                _ => {
                    q.push(0x1b);
                    q.push(0x5d);
                    q.push(0x31);
                    q.push(0x31);
                    q.push(0x3b);
                    q.push(0x3f);
                    q.push(0x1b);
                    q.push(0x5c);
                },
            }
        },
    }
    proof {
        assert(q@ =~= spec_query_bytes(term, purpose));
    }
    q
}

} // verus!

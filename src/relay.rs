use vstd::prelude::*;

use crate::header::{frame_length, header_to_string, length_of, render, HEADER_LEN};

verus! {

/// Why a relay direction stopped.
#[derive(Debug, Clone, Copy, PartialEq, Eq, Structural)]
pub enum Fault {
    /// The source delivered `got` bytes where `expected` were due.
    ShortRead { expected: usize, got: usize },
    /// A header declared a total length below the header's own size.
    BadLength(u32),
}

/// Where a relay direction stands between two reads.
#[derive(Debug, Clone, Copy)]
pub enum Phase {
    /// The next read is a full header.
    Header,
    /// The header is forwarded; `remaining` body bytes are still due.
    Body { header: [u8; 11], remaining: u32 },
    /// The direction has stopped for good.
    Ended(Fault),
}

/// What the caller does with one read: write `forward` to the destination,
/// then hand `report` (the classification of a completed message) to the
/// observer.
pub struct Step {
    pub forward: Vec<u8>,
    pub report: Option<String>,
}

/// One direction of the relay: whole messages pass from a source to a
/// destination, one read at a time.
pub struct Pump {
    pub phase: Phase,
}

/// Bytes owed by the next read, or none once the direction has stopped.
pub open spec fn wanted(p: Phase) -> Option<nat> {
    match p {
        Phase::Header => Some(HEADER_LEN as nat),
        Phase::Body { remaining, .. } => Some(remaining as nat),
        Phase::Ended(_) => None,
    }
}

/// Whether a read delivered exactly what the phase asked for.
pub open spec fn accepted(p: Phase, input: Seq<u8>) -> bool {
    wanted(p) == Some(input.len())
}

/// What goes to the destination for one read: all of it, untouched, when
/// it is what was asked for; nothing otherwise.
pub open spec fn forward_of(p: Phase, input: Seq<u8>) -> Seq<u8> {
    if accepted(p, input) {
        input
    } else {
        Seq::empty()
    }
}

/// The classification emitted when a read completes a message.
pub open spec fn report_of(p: Phase, input: Seq<u8>) -> Option<Seq<char>> {
    if !accepted(p, input) {
        None
    } else {
        match p {
            Phase::Header => if length_of(input) == HEADER_LEN as nat {
                Some(render(input))
            } else {
                None
            },
            Phase::Body { header, .. } => Some(render(header@)),
            Phase::Ended(_) => None,
        }
    }
}

/// The phase that follows a read of `input` in phase `p`.
pub open spec fn next_phase(p: Phase, input: Seq<u8>, q: Phase) -> bool {
    match p {
        Phase::Ended(f) => q == Phase::Ended(f),
        _ => if !accepted(p, input) {
            q == Phase::Ended(
                Fault::ShortRead { expected: wanted(p).unwrap() as usize, got: input.len() as usize },
            )
        } else {
            match p {
                Phase::Header => {
                    let len = length_of(input);
                    if len < HEADER_LEN as nat {
                        q == Phase::Ended(Fault::BadLength(len as u32))
                    } else if len == HEADER_LEN as nat {
                        q == Phase::Header
                    } else {
                        &&& q is Body
                        &&& q->header@ == input
                        &&& q->remaining as nat == len - HEADER_LEN as nat
                    }
                },
                _ => q == Phase::Header,
            }
        },
    }
}

/// The view of an optional report.
pub open spec fn report_view(r: Option<String>) -> Option<Seq<char>> {
    match r {
        Some(s) => Some(s@),
        None => None,
    }
}

impl Pump {
    /// A body is never empty: a header of minimal length completes its message.
    pub open spec fn wf(&self) -> bool {
        self.phase is Body ==> self.phase->remaining > 0
    }

    /// A direction waiting for its first header.
    pub fn new() -> (r: Pump)
        ensures
            r.wf(),
            r.phase is Header,
    {
        Pump { phase: Phase::Header }
    }

    /// How many bytes the next read must deliver; `None` once stopped.
    pub fn wanted(&self) -> (r: Option<usize>)
        ensures
            match r {
                Some(n) => wanted(self.phase) == Some(n as nat),
                None => wanted(self.phase) is None,
            },
    {
        match self.phase {
            Phase::Header => Some(HEADER_LEN),
            Phase::Body { remaining, .. } => Some(remaining as usize),
            Phase::Ended(_) => None,
        }
    }

    /// Why the direction stopped, if it has.
    pub fn fault(&self) -> (r: Option<Fault>)
        ensures
            match self.phase {
                Phase::Ended(f) => r == Some(f),
                _ => r is None,
            },
    {
        match self.phase {
            Phase::Ended(f) => Some(f),
            _ => None,
        }
    }

    /// Takes the bytes of one read from the source and says what to write
    /// to the destination and what to report.
    pub fn on_input(&mut self, input: Vec<u8>) -> (r: Step)
        requires
            old(self).wf(),
        ensures
            final(self).wf(),
            r.forward@ == forward_of(old(self).phase, input@),
            report_view(r.report) == report_of(old(self).phase, input@),
            next_phase(old(self).phase, input@, final(self).phase),
    {
        match self.phase {
            Phase::Ended(_) => Step { forward: Vec::new(), report: None },
            Phase::Header => {
                if input.len() != HEADER_LEN {
                    self.phase = Phase::Ended(Fault::ShortRead { expected: HEADER_LEN, got: input.len() });
                    return Step { forward: Vec::new(), report: None };
                }
                let header: [u8; 11] = [
                    input[0],
                    input[1],
                    input[2],
                    input[3],
                    input[4],
                    input[5],
                    input[6],
                    input[7],
                    input[8],
                    input[9],
                    input[10],
                ];
                assert(header@ =~= input@);
                let len = frame_length(&header);
                if len < 11 {
                    self.phase = Phase::Ended(Fault::BadLength(len));
                    Step { forward: input, report: None }
                } else if len == 11 {
                    let summary = header_to_string(&header);
                    Step { forward: input, report: Some(summary) }
                } else {
                    self.phase = Phase::Body { header, remaining: len - 11 };
                    Step { forward: input, report: None }
                }
            },
            Phase::Body { header, remaining } => {
                if input.len() != remaining as usize {
                    self.phase = Phase::Ended(Fault::ShortRead { expected: remaining as usize, got: input.len() });
                    return Step { forward: Vec::new(), report: None };
                }
                self.phase = Phase::Header;
                let summary = header_to_string(&header);
                Step { forward: input, report: Some(summary) }
            },
        }
    }
}

} // verus!

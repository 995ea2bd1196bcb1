use vstd::prelude::*;

use crate::relay::Fault;

verus! {

/// Size in bytes of the handshake token.
pub const HANDSHAKE_LEN: usize = 14;

/// The ASCII bytes of `JDWP-Handshake`, sent once each way before any
/// framed message.
pub open spec fn handshake_bytes() -> Seq<u8> {
    seq![74u8, 68, 87, 80, 45, 72, 97, 110, 100, 115, 104, 97, 107, 101]
}

/// The handshake token.
pub fn handshake_token() -> (r: Vec<u8>)
    ensures
        r@ == handshake_bytes(),
{
    let r: Vec<u8> = vec![74u8, 68, 87, 80, 45, 72, 97, 110, 100, 115, 104, 97, 107, 101];
    assert(r@ =~= handshake_bytes());
    r
}

/// Accepts any handshake of the full length; its content is not checked.
pub fn check_handshake(received: &[u8]) -> (r: Result<(), Fault>)
    ensures
        received@.len() == HANDSHAKE_LEN ==> r is Ok,
        received@.len() != HANDSHAKE_LEN ==> r == Err::<(), Fault>(
            Fault::ShortRead { expected: HANDSHAKE_LEN, got: received@.len() as usize },
        ),
{
    if received.len() == HANDSHAKE_LEN {
        Ok(())
    } else {
        Err(Fault::ShortRead { expected: HANDSHAKE_LEN, got: received.len() })
    }
}

/// The two endpoints of a session.
#[derive(Debug, Clone, Copy, PartialEq, Eq, Structural)]
pub enum Peer {
    /// The process being debugged, dialled by the relay.
    Debuggee,
    /// The debugging client, accepted by the relay.
    Debugger,
}

/// One half of a handshake exchange.
#[derive(Debug, Clone, Copy, PartialEq, Eq, Structural)]
pub enum HandshakeOp {
    Send,
    Receive,
}

/// The order of the handshake with a peer: the relay speaks first to the
/// debuggee, as a debugger would, and listens first to the debugger, as a
/// debuggee would.
pub fn handshake_order(peer: Peer) -> (r: (HandshakeOp, HandshakeOp))
    ensures
        peer == Peer::Debuggee ==> r == (HandshakeOp::Send, HandshakeOp::Receive),
        peer == Peer::Debugger ==> r == (HandshakeOp::Receive, HandshakeOp::Send),
{
    match peer {
        Peer::Debuggee => (HandshakeOp::Send, HandshakeOp::Receive),
        Peer::Debugger => (HandshakeOp::Receive, HandshakeOp::Send),
    }
}

/// The direction a relay pump carries messages in.
#[derive(Debug, Clone, Copy, PartialEq, Eq, Structural)]
pub enum Direction {
    DebuggeeToDebugger,
    DebuggerToDebuggee,
}

/// The label an observer sees for a direction.
pub open spec fn direction_label(d: Direction) -> Seq<char> {
    match d {
        Direction::DebuggeeToDebugger => "Debugger <- Debuggee"@,
        Direction::DebuggerToDebuggee => "Debugger -> Debuggee"@,
    }
}

/// The line an observer sees for a relayed message.
pub fn event_line(direction: Direction, summary: &String) -> (r: String)
    ensures
        r@ == direction_label(direction) + ": "@ + summary@,
{
    let mut s = String::new();
    match direction {
        Direction::DebuggeeToDebugger => s.append("Debugger <- Debuggee"),
        Direction::DebuggerToDebuggee => s.append("Debugger -> Debuggee"),
    }
    s.append(": ");
    s.append(summary.as_str());
    assert(s@ =~= direction_label(direction) + ": "@ + summary@);
    s
}

/// Settings of a relay session: the two ports, whether raw bytes are
/// shown, and whether output is coloured.
pub struct JdwpProxy {
    pub debuggee_port: u16,
    pub debugger_port: u16,
    pub verbose: bool,
    pub colour: bool,
}

impl JdwpProxy {
    pub fn new(debuggee_port: u16, debugger_port: u16, verbose: bool, colour: bool) -> (r: Self)
        ensures
            r.debuggee_port == debuggee_port,
            r.debugger_port == debugger_port,
            r.verbose == verbose,
            r.colour == colour,
    {
        JdwpProxy { debuggee_port, debugger_port, verbose, colour }
    }
}

} // verus!

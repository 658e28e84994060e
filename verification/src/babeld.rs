//! The control-socket command protocol of the routing daemon: the exact
//! command lines for registering and deregistering an interface, the framing
//! that closes a session, and the readiness-driven exchange over the
//! non-blocking socket.
//!
//! The wire format is line-oriented text and must be kept byte-for-byte:
//! `interface <name> <config>` registers, `flush interface <name>`
//! deregisters, and each command is followed by the `quit` directive on its
//! own line.

use vstd::prelude::*;
use vstd::string::StringExecFns;

use crate::trigger::Trigger;

verus! {

/// The registration command line: `interface <name> <config>`.
pub open spec fn spec_register_command(name: Seq<char>, config: Seq<char>) -> Seq<char> {
    "interface "@ + name + " "@ + config
}

/// The deregistration command line: `flush interface <name>`.
pub open spec fn spec_deregister_command(name: Seq<char>) -> Seq<char> {
    "flush interface "@ + name
}

/// A framed session: the command line, a line break, the `quit` directive,
/// a line break.
pub open spec fn spec_frame(command: Seq<char>) -> Seq<char> {
    command + "\nquit\n"@
}

/// Build the registration command line.
pub fn register_command(name: &str, config: &str) -> (r: String)
    ensures
        r@ == spec_register_command(name@, config@),
{
    let mut s = "interface ".to_owned();
    s.append(name);
    s.append(" ");
    s.append(config);
    proof {
        assert(s@ =~= spec_register_command(name@, config@));
    }
    s
}

/// Build the deregistration command line.
pub fn deregister_command(name: &str) -> (r: String)
    ensures
        r@ == spec_deregister_command(name@),
{
    let mut s = "flush interface ".to_owned();
    s.append(name);
    s
}

/// Frame a command line for one session: append the terminating directive.
pub fn frame_command(command: &str) -> (r: String)
    ensures
        r@ == spec_frame(command@),
{
    let mut s = command.to_owned();
    s.append("\nquit\n");
    s
}

/// The framed bytes owed to a trigger: registration on the up path,
/// deregistration on the down path, nothing otherwise.
pub open spec fn spec_command_for(
    trigger: Trigger,
    name: Seq<char>,
    config: Seq<char>,
) -> Option<Seq<char>> {
    match trigger {
        Trigger::Up => Some(spec_frame(spec_register_command(name, config))),
        Trigger::Down => Some(spec_frame(spec_deregister_command(name))),
        Trigger::Other => None,
    }
}

/// Decide and build the framed command a trigger owes the daemon.
pub fn command_for(trigger: Trigger, name: &str, config: &str) -> (r: Option<String>)
    ensures
        match r {
            Some(s) => spec_command_for(trigger, name@, config@) == Some(s@),
            None => spec_command_for(trigger, name@, config@) is None,
        },
{
    match trigger {
        Trigger::Up => {
            let line = register_command(name, config);
            Some(frame_command(line.as_str()))
        },
        Trigger::Down => {
            let line = deregister_command(name);
            Some(frame_command(line.as_str()))
        },
        Trigger::Other => None,
    }
}

/// Where a session stands: draining the unsolicited greeting, writing the
/// command, or draining the reply.
#[derive(Clone, Copy, Debug, PartialEq, Eq, Structural)]
pub enum SessionPhase {
    Greeting,
    Command,
    Reply,
    Done,
    Failed,
}

/// What the socket reported: a readiness poll's flags, a completed read or
/// write, a transient would-block condition, or a hard I/O error.
#[derive(Clone, Copy, Debug, PartialEq, Eq, Structural)]
pub enum SockEvent {
    Readiness { readable: bool, writable: bool },
    TransferOk,
    WouldBlock,
    IoFailed,
}

/// What the caller is asked to do next on the socket.
#[derive(Clone, Copy, Debug, PartialEq, Eq, Structural)]
pub enum SockStep {
    /// Poll for readiness.
    AwaitReadiness,
    /// Attempt one bounded read, discarding the data.
    TryRead,
    /// Attempt to write the framed command.
    TryWrite,
    /// The exchange is complete.
    Succeed,
    /// A hard I/O error ended the exchange.
    Fail,
}

/// The session's transition relation: in the two draining phases a read is
/// attempted once the socket is readable, in the command phase a write once
/// it is writable; a completed transfer advances the phase; would-block
/// retreats to polling; any hard error fails the session.
pub open spec fn spec_session_step(phase: SessionPhase, ev: SockEvent) -> (
    SessionPhase,
    SockStep,
) {
    match (phase, ev) {
        (SessionPhase::Greeting, SockEvent::Readiness { readable, .. }) => if readable {
            (SessionPhase::Greeting, SockStep::TryRead)
        } else {
            (SessionPhase::Greeting, SockStep::AwaitReadiness)
        },
        (SessionPhase::Greeting, SockEvent::TransferOk) => (
            SessionPhase::Command,
            SockStep::AwaitReadiness,
        ),
        (SessionPhase::Command, SockEvent::Readiness { writable, .. }) => if writable {
            (SessionPhase::Command, SockStep::TryWrite)
        } else {
            (SessionPhase::Command, SockStep::AwaitReadiness)
        },
        (SessionPhase::Command, SockEvent::TransferOk) => (
            SessionPhase::Reply,
            SockStep::AwaitReadiness,
        ),
        (SessionPhase::Reply, SockEvent::Readiness { readable, .. }) => if readable {
            (SessionPhase::Reply, SockStep::TryRead)
        } else {
            (SessionPhase::Reply, SockStep::AwaitReadiness)
        },
        (SessionPhase::Reply, SockEvent::TransferOk) => (SessionPhase::Done, SockStep::Succeed),
        (_, SockEvent::WouldBlock) => (phase, SockStep::AwaitReadiness),
        (_, SockEvent::IoFailed) => (SessionPhase::Failed, SockStep::Fail),
        (SessionPhase::Done, _) => (SessionPhase::Done, SockStep::Succeed),
        (SessionPhase::Failed, _) => (SessionPhase::Failed, SockStep::Fail),
    }
}

/// One control-socket exchange, driven by readiness events.
#[derive(Clone, Copy, Debug, PartialEq, Eq, Structural)]
pub struct SocketSession {
    pub phase: SessionPhase,
}

impl SocketSession {
    /// Open a session: the first thing to do is poll, to drain whatever
    /// greeting the daemon sends unsolicited.
    pub fn start() -> (r: (SocketSession, SockStep))
        ensures
            r.0.phase == SessionPhase::Greeting,
            r.1 == SockStep::AwaitReadiness,
    {
        (SocketSession { phase: SessionPhase::Greeting }, SockStep::AwaitReadiness)
    }

    /// Feed what the socket reported; the session answers with the next
    /// thing to do.
    pub fn step(&mut self, ev: SockEvent) -> (s: SockStep)
        ensures
            (final(self).phase, s) == spec_session_step(old(self).phase, ev),
    {
        let (next, out): (SessionPhase, SockStep) = match (self.phase, ev) {
            (SessionPhase::Greeting, SockEvent::Readiness { readable, .. }) => {
                if readable {
                    (SessionPhase::Greeting, SockStep::TryRead)
                } else {
                    (SessionPhase::Greeting, SockStep::AwaitReadiness)
                }
            },
            (SessionPhase::Greeting, SockEvent::TransferOk) => (
                SessionPhase::Command,
                SockStep::AwaitReadiness,
            ),
            (SessionPhase::Command, SockEvent::Readiness { writable, .. }) => {
                if writable {
                    (SessionPhase::Command, SockStep::TryWrite)
                } else {
                    (SessionPhase::Command, SockStep::AwaitReadiness)
                }
            },
            (SessionPhase::Command, SockEvent::TransferOk) => (
                SessionPhase::Reply,
                SockStep::AwaitReadiness,
            ),
            (SessionPhase::Reply, SockEvent::Readiness { readable, .. }) => {
                if readable {
                    (SessionPhase::Reply, SockStep::TryRead)
                } else {
                    (SessionPhase::Reply, SockStep::AwaitReadiness)
                }
            },
            (SessionPhase::Reply, SockEvent::TransferOk) => (
                SessionPhase::Done,
                SockStep::Succeed,
            ),
            (p, SockEvent::WouldBlock) => (p, SockStep::AwaitReadiness),
            (_, SockEvent::IoFailed) => (SessionPhase::Failed, SockStep::Fail),
            (SessionPhase::Done, _) => (SessionPhase::Done, SockStep::Succeed),
            (SessionPhase::Failed, _) => (SessionPhase::Failed, SockStep::Fail),
        };
        self.phase = next;
        out
    }
}

} // verus!

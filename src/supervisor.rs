//! The reconnect supervisor: decides, one input at a time, what the feed
//! task does next. It never stops: every failure leads to a pause and a new
//! connection attempt.

use crate::feed::{after_event, event_wf, EventProcessor, FeedEvent};
use crate::store::MetricStore;
use vstd::prelude::*;

verus! {

/// Seconds to wait between tearing a session down and opening the next one.
pub const BACKOFF_SECS: u64 = 1;

/// Where the supervisor stands.
#[derive(Clone, Copy, Debug, PartialEq, Eq, Structural)]
pub enum Phase {
    /// A session is being opened.
    Connecting,
    /// A session is open and the next event is awaited.
    Streaming,
    /// A keepalive reply is being sent on the open session.
    Acknowledging,
    /// The session is being closed, followed by the backoff pause.
    Recovering,
}

/// What the feed task reports back after carrying out a command.
pub enum Input {
    /// The session was opened and subscribed.
    Opened,
    /// Opening the session failed.
    OpenFailed,
    /// An event arrived on the session.
    Event(FeedEvent),
    /// No event arrived within the stall timeout.
    TimedOut,
    /// The upstream closed the stream.
    Ended,
    /// The transport failed, a failed keepalive reply included.
    TransportFailed,
    /// The keepalive reply was sent.
    Acknowledged,
    /// The backoff pause is over.
    BackoffElapsed,
}

/// What the feed task is to do next.
#[derive(Clone, Copy, Debug, PartialEq, Eq, Structural)]
pub enum Command {
    /// Open a session and subscribe to the book-ticker topic.
    Open,
    /// Wait for the next event, at most this many seconds.
    NextEvent { stall_timeout_secs: u64 },
    /// Send one keepalive reply on the open session.
    SendKeepalive,
    /// Close the current session, if any, then pause this many seconds.
    CloseAndWait { backoff_secs: u64 },
}

/// The phase that follows `p` on input `i`.
pub open spec fn next_phase(p: Phase, i: Input) -> Phase {
    match p {
        Phase::Connecting => match i {
            Input::Opened => Phase::Streaming,
            _ => Phase::Recovering,
        },
        Phase::Streaming => match i {
            Input::Event(FeedEvent::KeepaliveRequest) => Phase::Acknowledging,
            Input::Event(_) => Phase::Streaming,
            _ => Phase::Recovering,
        },
        Phase::Acknowledging => match i {
            Input::Acknowledged => Phase::Streaming,
            _ => Phase::Recovering,
        },
        Phase::Recovering => match i {
            Input::BackoffElapsed => Phase::Connecting,
            _ => Phase::Recovering,
        },
    }
}

/// The command that carries out phase `p`.
pub open spec fn command_in(p: Phase, stall_timeout_secs: u64) -> Command {
    match p {
        Phase::Connecting => Command::Open,
        Phase::Streaming => Command::NextEvent { stall_timeout_secs },
        Phase::Acknowledging => Command::SendKeepalive,
        Phase::Recovering => Command::CloseAndWait { backoff_secs: BACKOFF_SECS },
    }
}

/// Whether input `i` in phase `p` hands an event to the processor.
pub open spec fn processes(p: Phase, i: Input) -> bool {
    p == Phase::Streaming && i is Event
}

/// The supervisor's state: its phase and the configured stall timeout.
pub struct Supervisor {
    pub phase: Phase,
    pub stall_timeout_secs: u64,
}

impl Supervisor {
    /// A supervisor about to open its first session.
    pub fn new(stall_timeout_secs: u64) -> (r: Supervisor)
        ensures
            r.phase == Phase::Connecting,
            r.stall_timeout_secs == stall_timeout_secs,
    {
        Supervisor { phase: Phase::Connecting, stall_timeout_secs }
    }

    /// The command for the current phase.
    pub fn command(&self) -> (r: Command)
        ensures
            r == command_in(self.phase, self.stall_timeout_secs),
    {
        match self.phase {
            Phase::Connecting => Command::Open,
            Phase::Streaming => Command::NextEvent { stall_timeout_secs: self.stall_timeout_secs },
            Phase::Acknowledging => Command::SendKeepalive,
            Phase::Recovering => Command::CloseAndWait { backoff_secs: BACKOFF_SECS },
        }
    }

    /// Takes the outcome of the last command, processes an arrived event
    /// into the store, and returns the next command.
    pub fn handle(&mut self, input: Input, processor: &EventProcessor, store: &mut MetricStore) -> (r:
        Command)
        requires
            old(store).wf(),
            input matches Input::Event(e) ==> event_wf(e),
        ensures
            final(self).phase == next_phase(old(self).phase, input),
            final(self).stall_timeout_secs == old(self).stall_timeout_secs,
            r == command_in(final(self).phase, final(self).stall_timeout_secs),
            final(store).wf(),
            final(store)@ == (if processes(old(self).phase, input) {
                after_event(old(store)@, processor.source@, processor.filter@, input->Event_0)
            } else {
                old(store)@
            }),
    {
        let next = match self.phase {
            Phase::Connecting => match input {
                Input::Opened => Phase::Streaming,
                _ => Phase::Recovering,
            },
            Phase::Streaming => match input {
                Input::Event(e) => {
                    let _ = processor.process(&e, store);
                    match e {
                        FeedEvent::KeepaliveRequest => Phase::Acknowledging,
                        _ => Phase::Streaming,
                    }
                },
                _ => Phase::Recovering,
            },
            Phase::Acknowledging => match input {
                Input::Acknowledged => Phase::Streaming,
                _ => Phase::Recovering,
            },
            Phase::Recovering => match input {
                Input::BackoffElapsed => Phase::Connecting,
                _ => Phase::Recovering,
            },
        };
        self.phase = next;
        self.command()
    }
}

/// A stalled stream is recovered: when no event arrives within the stall
/// timeout, the session is closed, the supervisor pauses for the backoff
/// interval, and then opens a new session.
pub proof fn lemma_stall_leads_to_reconnect(stall_timeout_secs: u64)
    ensures
        next_phase(Phase::Streaming, Input::TimedOut) == Phase::Recovering,
        command_in(Phase::Recovering, stall_timeout_secs) == (Command::CloseAndWait {
            backoff_secs: BACKOFF_SECS,
        }),
        next_phase(Phase::Recovering, Input::BackoffElapsed) == Phase::Connecting,
        command_in(Phase::Connecting, stall_timeout_secs) == Command::Open,
{
}

/// A keepalive request is answered by exactly one reply before any further
/// event is processed: the request leads to one `SendKeepalive`, and whatever
/// comes back while acknowledging neither processes an event nor asks for a
/// second reply.
pub proof fn lemma_keepalive_answered_once(stall_timeout_secs: u64, i: Input)
    ensures
        next_phase(Phase::Streaming, Input::Event(FeedEvent::KeepaliveRequest))
            == Phase::Acknowledging,
        command_in(Phase::Acknowledging, stall_timeout_secs) == Command::SendKeepalive,
        !processes(Phase::Acknowledging, i),
        next_phase(Phase::Acknowledging, i) != Phase::Acknowledging,
        next_phase(Phase::Acknowledging, Input::Acknowledged) == Phase::Streaming,
{
}

/// Every failure the feed task can report leads to recovery, whichever
/// phase it is reported in: no failure ends the supervisor.
pub proof fn lemma_failures_recover(p: Phase)
    ensures
        next_phase(p, Input::OpenFailed) == Phase::Recovering,
        next_phase(p, Input::TimedOut) == Phase::Recovering,
        next_phase(p, Input::Ended) == Phase::Recovering,
        next_phase(p, Input::TransportFailed) == Phase::Recovering,
{
}

} // verus!

//! The live view session: per-client logic that turns snapshot-change
//! notifications into a stream of events.
//!
//! A session moves `Initializing -> Streaming -> Closed`. While
//! initializing it subscribes and emits the current snapshot at once, so a
//! client sees the existing posts without waiting for the next change.
//! While streaming, each observed change becomes one event; the session ends
//! when the channel closes or the client's transport rejects a send. The
//! surrounding runtime owns the waiting; this type owns every decision.

use vstd::prelude::*;
use crate::channel::{has_update, Broadcast, PollOutcome, Subscription};
use crate::post::Post;

verus! {

#[derive(Clone, Copy, Debug, PartialEq, Eq, Structural)]
pub enum SessionPhase {
    Initializing,
    Streaming,
    Closed,
}

/// What a streaming session decides after one look at the channel: emit an
/// event, wait for the next wakeup, or end the stream for good.
#[derive(Debug)]
pub enum SessionStep {
    Event(Vec<Post>),
    Wait,
    End,
}

/// One client's session: its own subscription and its phase. Sessions share
/// nothing mutable with each other; many may watch the same channel.
pub struct LiveSession {
    pub sub: Subscription,
    pub phase: SessionPhase,
}

impl LiveSession {
    /// Opens a session on the channel: subscribed at the current version,
    /// not yet streaming.
    pub fn start(ch: &Broadcast) -> (s: LiveSession)
        ensures
            s.phase == SessionPhase::Initializing,
            s.sub.observed == ch.version,
    {
        LiveSession { sub: ch.subscribe(), phase: SessionPhase::Initializing }
    }

    /// The first event of the stream: the current snapshot, delivered
    /// immediately. The session is streaming afterwards, still subscribed at
    /// the version it started from.
    pub fn first_event(&mut self, ch: &Broadcast) -> (r: Vec<Post>)
        requires
            old(self).phase == SessionPhase::Initializing,
        ensures
            r@ == ch.latest@,
            final(self).phase == SessionPhase::Streaming,
            final(self).sub == old(self).sub,
    {
        self.phase = SessionPhase::Streaming;
        self.sub.current(ch)
    }

    /// One streaming-loop decision. Exactly when the channel holds an
    /// unobserved snapshot the step is an event carrying it and the session
    /// catches up; a closed channel without one ends the session for good;
    /// otherwise the session waits, completely unchanged — it cannot emit
    /// an event that no publish produced.
    pub fn next_step(&mut self, ch: &Broadcast) -> (r: SessionStep)
        requires
            old(self).phase == SessionPhase::Streaming,
        ensures
            r is Event <==> has_update(*ch, old(self).sub),
            r matches SessionStep::Event(v) ==> v@ == ch.latest@ && final(self).sub.observed
                == ch.version && final(self).phase == SessionPhase::Streaming,
            r is End <==> !has_update(*ch, old(self).sub) && ch.closed,
            r is End ==> final(self).phase == SessionPhase::Closed && final(self).sub == old(
                self,
            ).sub,
            r is Wait <==> !has_update(*ch, old(self).sub) && !ch.closed,
            r is Wait ==> *final(self) == *old(self),
    {
        match self.sub.poll(ch) {
            PollOutcome::Ready(snapshot) => SessionStep::Event(snapshot),
            PollOutcome::Closed => {
                self.phase = SessionPhase::Closed;
                SessionStep::End
            },
            PollOutcome::Pending => SessionStep::Wait,
        }
    }

    /// The client's transport rejected a send: the session is over, on this
    /// exit path as on every other.
    pub fn client_gone(&mut self)
        ensures
            final(self).phase == SessionPhase::Closed,
            final(self).sub == old(self).sub,
    {
        self.phase = SessionPhase::Closed;
    }

    /// A closed session stays closed: no further events are sent.
    pub fn is_closed(&self) -> (r: bool)
        ensures
            r == (self.phase == SessionPhase::Closed),
    {
        matches!(self.phase, SessionPhase::Closed)
    }
}

} // verus!

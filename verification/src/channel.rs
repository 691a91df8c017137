//! The snapshot broadcast channel: a single slot holding the latest
//! published snapshot plus a version counter, observed by any number of
//! independent subscriptions.
//!
//! Only the latest value is ever delivered: a subscription that misses
//! several rapid publishes observes the final state alone. The channel
//! itself never waits; suspension until the version advances is the
//! surrounding runtime's job, which repeats [`Subscription::poll`] after
//! each wakeup.

use vstd::prelude::*;
use crate::post::Post;
use crate::store::clone_posts;

verus! {

/// The single-slot latest-value cell. `latest` starts as the empty snapshot,
/// so a subscriber that connects before any post exists still observes a
/// defined initial state; `version` counts publishes; `closed` records that
/// the publisher is permanently gone.
pub struct Broadcast {
    pub latest: Vec<Post>,
    pub version: u64,
    pub closed: bool,
}

/// One subscriber's progress: the last version it has observed.
pub struct Subscription {
    pub observed: u64,
}

/// What one poll of a subscription yields: a fresh snapshot, nothing new
/// yet, or the terminal signal that no publish will ever come again.
#[derive(Debug)]
pub enum PollOutcome {
    Ready(Vec<Post>),
    Pending,
    Closed,
}

/// The version has advanced past what this subscription last observed.
pub open spec fn has_update(ch: Broadcast, sub: Subscription) -> bool {
    sub.observed < ch.version
}

impl Broadcast {
    pub fn new() -> (ch: Broadcast)
        ensures
            ch.latest@.len() == 0,
            ch.version == 0,
            !ch.closed,
    {
        Broadcast { latest: Vec::new(), version: 0, closed: false }
    }

    /// Overwrites the slot with a new snapshot and bumps the version; never
    /// waits for subscribers, and intermediate values are simply lost.
    pub fn publish(&mut self, snapshot: Vec<Post>)
        requires
            old(self).version < u64::MAX,
        ensures
            final(self).latest == snapshot,
            final(self).version == old(self).version + 1,
            final(self).closed == old(self).closed,
    {
        self.latest = snapshot;
        self.version = self.version + 1;
    }

    /// Marks the publisher side as permanently shut down. The slot keeps its
    /// last value so late readers still see a defined state.
    pub fn close(&mut self)
        ensures
            final(self).latest == old(self).latest,
            final(self).version == old(self).version,
            final(self).closed,
    {
        self.closed = true;
    }

    /// A new subscription, initialized to the current version: its first
    /// successful poll waits for the next change rather than re-delivering
    /// the current value.
    pub fn subscribe(&self) -> (sub: Subscription)
        ensures
            sub.observed == self.version,
    {
        Subscription { observed: self.version }
    }
}

impl Subscription {
    /// The latest published snapshot, immediately; the subscription's
    /// progress is untouched.
    pub fn current(&self, ch: &Broadcast) -> (r: Vec<Post>)
        ensures
            r@ == ch.latest@,
    {
        clone_posts(&ch.latest)
    }

    /// One attempt to observe a change. Exactly when the version has
    /// advanced the outcome is the latest snapshot and the subscription
    /// catches up to it; otherwise a closed channel is terminal, and an
    /// unchanged open channel yields `Pending` with the subscription's
    /// progress untouched — never a spurious snapshot.
    pub fn poll(&mut self, ch: &Broadcast) -> (r: PollOutcome)
        ensures
            r is Ready <==> has_update(*ch, *old(self)),
            r matches PollOutcome::Ready(v) ==> v@ == ch.latest@ && final(self).observed
                == ch.version,
            r is Closed <==> !has_update(*ch, *old(self)) && ch.closed,
            r is Pending <==> !has_update(*ch, *old(self)) && !ch.closed,
            r is Ready || *final(self) == *old(self),
    {
        if self.observed < ch.version {
            self.observed = ch.version;
            PollOutcome::Ready(clone_posts(&ch.latest))
        } else if ch.closed {
            PollOutcome::Closed
        } else {
            PollOutcome::Pending
        }
    }
}

/// Law: no spurious wakeups. A subscription that has just observed the
/// current version has no update waiting, so a second poll before any
/// publish cannot yield a snapshot.
pub proof fn lemma_no_spurious_wakeup(ch: Broadcast, sub: Subscription)
    requires
        sub.observed == ch.version,
    ensures
        !has_update(ch, sub),
{
}

/// Law: a publish wakes every subscription. Whatever version a subscription
/// had observed before a publish, afterwards it has an update waiting, so
/// its next poll is obliged to yield the new snapshot.
pub proof fn lemma_publish_wakes_all(pre: Broadcast, post: Broadcast, sub: Subscription)
    requires
        sub.observed <= pre.version,
        pre.version < post.version,
    ensures
        has_update(post, sub),
{
}

} // verus!

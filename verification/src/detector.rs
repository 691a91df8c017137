//! The change detector: on each tick it takes a snapshot of the post store,
//! compares it structurally to the last snapshot it published, and publishes
//! to the broadcast channel only when something changed.
//!
//! The comparison is a full structural equality check, not a hash: a hash
//! would trade a collision-induced missed update for speed, and at this
//! scale correctness wins. The tick interval is the runtime's choice; it
//! bounds worst-case update latency.

use vstd::prelude::*;
use crate::channel::Broadcast;
use crate::post::{snap_view, Post};

verus! {

/// Decides whether two snapshots are structurally equal: same length, and
/// every post field equal position by position.
pub fn snapshots_equal(a: &Vec<Post>, b: &Vec<Post>) -> (r: bool)
    ensures
        r == (snap_view(a@) == snap_view(b@)),
{
    let n = a.len();
    if n != b.len() {
        proof {
            assert(snap_view(a@).len() != snap_view(b@).len());
        }
        return false;
    }
    let mut i: usize = 0;
    while i < n
        invariant
            i <= n,
            n == a@.len(),
            n == b@.len(),
            forall|j: int| 0 <= j < i ==> snap_view(a@)[j] == snap_view(b@)[j],
        decreases n - i,
    {
        if !a[i].content_equal(&b[i]) {
            proof {
                assert(snap_view(a@)[i as int] != snap_view(b@)[i as int]);
            }
            return false;
        }
        i = i + 1;
    }
    proof {
        assert(snap_view(a@) =~= snap_view(b@));
    }
    true
}

/// The detector's memory: the snapshot it last published. It starts empty,
/// matching a fresh channel's slot, so the first posts are always seen as a
/// change — and a store that is still empty is not.
pub struct ChangeDetector {
    pub last: Vec<Post>,
}

/// The detector's memory agrees with what the channel holds. Ticking
/// preserves this, and it is what makes every published value the store's
/// true snapshot.
pub open spec fn in_sync(det: ChangeDetector, ch: Broadcast) -> bool {
    snap_view(det.last@) == snap_view(ch.latest@)
}

impl ChangeDetector {
    pub fn new() -> (d: ChangeDetector)
        ensures
            d.last@.len() == 0,
    {
        ChangeDetector { last: Vec::new() }
    }

    /// One tick: publishes the snapshot exactly when it differs structurally
    /// from the last published one, and otherwise leaves channel and memory
    /// untouched. A detector in sync with its channel stays in sync, and
    /// after the tick the channel's slot shows the snapshot just taken —
    /// whether or not a publish was needed.
    pub fn tick(&mut self, ch: &mut Broadcast, snapshot: Vec<Post>) -> (published: bool)
        requires
            old(ch).version < u64::MAX,
        ensures
            published == (snap_view(snapshot@) != snap_view(old(self).last@)),
            published ==> final(self).last == snapshot && final(ch).latest@ == snapshot@
                && final(ch).version == old(ch).version + 1 && final(ch).closed == old(ch).closed,
            !published ==> *final(self) == *old(self) && *final(ch) == *old(ch),
            in_sync(*old(self), *old(ch)) ==> in_sync(*final(self), *final(ch)) && snap_view(
                final(ch).latest@,
            ) == snap_view(snapshot@),
    {
        if snapshots_equal(&self.last, &snapshot) {
            false
        } else {
            let copy = crate::store::clone_posts(&snapshot);
            ch.publish(copy);
            self.last = snapshot;
            true
        }
    }
}

} // verus!

//! The single-slot store of the latest published snapshot.

use vstd::prelude::*;
use crate::metrics::Snapshot;

verus! {

/// Holds the most recent snapshot, or nothing before the first publish.
/// A publish replaces the whole snapshot at once; readers that share the
/// sink across tasks hold it behind one lock, so no read sees half of one.
pub struct PublicationSink {
    latest: Option<Snapshot>,
}

impl View for PublicationSink {
    type V = Option<Snapshot>;

    closed spec fn view(&self) -> Option<Snapshot> {
        self.latest
    }
}

/// What the store holds after `s` is published into a store holding `before`.
pub open spec fn published(before: Option<Snapshot>, s: Snapshot) -> Option<Snapshot> {
    Some(s)
}

/// What the store holds after each snapshot of `history` is published in
/// turn, starting from `start`.
pub open spec fn after_publishing(start: Option<Snapshot>, history: Seq<Snapshot>) -> Option<
    Snapshot,
>
    decreases history.len(),
{
    if history.len() == 0 {
        start
    } else {
        published(after_publishing(start, history.drop_last()), history.last())
    }
}

impl PublicationSink {
    /// An empty store: it reports no snapshot until the first publish.
    pub fn new() -> (r: PublicationSink)
        ensures
            r@ is None,
    {
        PublicationSink { latest: None }
    }

    /// Replaces the stored snapshot with `snapshot`.
    pub fn publish(&mut self, snapshot: Snapshot)
        ensures
            final(self)@ == published(old(self)@, snapshot),
            final(self)@ == Some(snapshot),
    {
        self.latest = Some(snapshot);
    }

    /// The latest published snapshot, or `None` before the first publish.
    pub fn current_snapshot(&self) -> (r: Option<Snapshot>)
        ensures
            r == self@,
    {
        self.latest
    }
}

/// A fresh store reports nothing until something is published; after any
/// series of publishes it reports exactly the last snapshot published.
pub proof fn lemma_reports_last_published(history: Seq<Snapshot>)
    ensures
        history.len() == 0 ==> after_publishing(None, history) is None,
        history.len() > 0 ==> after_publishing(None, history) == Some(history.last()),
{
}

} // verus!

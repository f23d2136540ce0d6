//! The poll loop's state machine. The loop itself — the fixed-interval
//! timer and the thread it runs on — lives with the surrounding
//! program; this module holds every decision one tick makes, and the
//! shutdown behaviour: once the shutdown signal has been observed, no
//! tick reads or publishes anything again.

use vstd::prelude::*;

use crate::reader::{InterfaceAddress, Read};
use crate::writer::Write;
use crate::InterfaceStat;

verus! {

/// The sampling monitor: an interface-listing source, a message sink
/// retaining the previous snapshot, and the stop flag the shutdown
/// signal sets.
pub struct Monitor<R: Read, W: Write> {
    reader: R,
    writer: W,
    stopped: bool,
}

impl<R: Read, W: Write> Monitor<R, W> {
    /// The reader's snapshots and the writer's retained snapshot agree
    /// on the frozen index space.
    pub closed spec fn wf(&self) -> bool {
        self.reader.info_model().len() == self.writer.retained().len()
    }

    /// Whether the shutdown signal has been observed.
    pub closed spec fn is_stopped(&self) -> bool {
        self.stopped
    }

    /// The interface set the monitor samples: frozen at construction
    /// and never changed by any tick.
    pub closed spec fn info_model(&self) -> Seq<Seq<char>> {
        self.reader.info_model()
    }

    /// The snapshot the writer retains for the next delta.
    pub closed spec fn retained_model(&self) -> Seq<Option<InterfaceStat>> {
        self.writer.retained()
    }

    /// The snapshot the monitor's reader yields for a given listing.
    pub closed spec fn snapshot_model(&self, listing: &Result<Vec<InterfaceAddress>, i32>) -> Seq<
        Option<InterfaceStat>,
    > {
        self.reader.snapshot_model(listing)
    }

    /// Couples a reader and a writer that were seeded from the same
    /// frozen interface set.
    pub fn new(reader: R, writer: W) -> (r: Monitor<R, W>)
        requires
            reader.info_model().len() == writer.retained().len(),
        ensures
            r.wf(),
            !r.is_stopped(),
    {
        Monitor { reader, writer, stopped: false }
    }

    /// Observes the shutdown signal: every later tick is a no-op.
    pub fn shutdown(&mut self)
        requires
            old(self).wf(),
        ensures
            final (self).wf(),
            final (self).is_stopped(),
            final (self).info_model() == old(self).info_model(),
            final (self).retained_model() == old(self).retained_model(),
    {
        self.stopped = true;
    }

    /// One tick of the poll loop, fed the fresh interface listing of
    /// this round: reduce the listing to the reader's snapshot of it,
    /// publish the delta against the previous snapshot, and retain the
    /// fresh snapshot. After shutdown a tick changes nothing and
    /// publishes nothing; before it, a tick always publishes — a failed
    /// listing only yields an all-`None` snapshot, never an error.
    pub fn tick(&mut self, listing: &Result<Vec<InterfaceAddress>, i32>) -> (published: bool)
        requires
            old(self).wf(),
        ensures
            final (self).wf(),
            final (self).is_stopped() == old(self).is_stopped(),
            final (self).info_model() == old(self).info_model(),
            published == !old(self).is_stopped(),
            old(self).is_stopped() ==> *final (self) == *old(self),
            !old(self).is_stopped() ==> final (self).retained_model() == old(self).snapshot_model(
                listing,
            ),
    {
        if self.stopped {
            return false;
        }
        let stats = self.reader.read(listing);
        let _ = self.writer.update(stats);
        true
    }
}

} // verus!

//! The sink side of the poll loop: a writer retains the previous
//! snapshot, turns each fresh snapshot into an interval-delta message,
//! and hands the message to the distribution hub.

use vstd::prelude::*;

use tokio::sync::broadcast::Sender;

use crate::hub::publish;
use crate::{Error, InterfaceInfo, InterfaceStat, InterfaceStats, Message};

verus! {

/// A message sink fed by the poll loop: one snapshot in per tick, with
/// the previous tick's snapshot retained for delta computation. An
/// update never fails; a snapshot of the wrong width would break the
/// frozen index space and is excluded.
pub trait Write {
    /// The retained previous snapshot.
    spec fn retained(&self) -> Seq<Option<InterfaceStat>>;

    /// Consumes one fresh snapshot: publishes the delta against the
    /// retained snapshot and retains the fresh one in its place.
    fn update(&mut self, stats: InterfaceStats) -> (r: Result<(), Error>)
        requires
            stats@.len() == old(self).retained().len(),
        ensures
            r is Ok,
            final (self).retained() == stats@,
    ;
}

/// The plain writer: computes each tick's delta message and publishes
/// it to the hub, blocking on nothing and nobody.
pub struct SimpleWriter {
    writer: Sender<Message>,
    prev_stats: InterfaceStats,
    info: InterfaceInfo,
}

impl SimpleWriter {
    /// The retained snapshot is always as wide as the frozen interface
    /// set, so every message this writer builds is aligned to that set.
    #[verifier::type_invariant]
    spec fn aligned(self) -> bool {
        self.prev_stats@.len() == self.info@.len()
    }

    /// The interface set every message of this writer carries.
    pub closed spec fn info_model(&self) -> Seq<Seq<char>> {
        self.info@
    }

    /// Builds a writer over the hub handle `writer`, carrying the
    /// frozen interface set `info` and seeded with the snapshot taken
    /// at enumerator construction, so that the first published message
    /// reflects real traffic since startup.
    pub fn new(writer: Sender<Message>, info: InterfaceInfo, initial_stats: InterfaceStats) -> (r:
        Result<SimpleWriter, Error>)
        requires
            initial_stats@.len() == info@.len(),
        ensures
            r matches Ok(w) && w.retained() == initial_stats@ && w.info_model() == info@,
    {
        Ok(SimpleWriter { writer, prev_stats: initial_stats, info })
    }
}

impl Write for SimpleWriter {
    closed spec fn retained(&self) -> Seq<Option<InterfaceStat>> {
        self.prev_stats@
    }

    /// Publishes exactly `Message { info, stats: delta }` for the
    /// interval that ends at `stats` — the message value is pinned by
    /// `Message::delta_message` — then retains `stats` as the new
    /// previous snapshot. The interface set never changes, and a
    /// publish with zero subscribers is a no-op success, so the update
    /// is total.
    fn update(&mut self, stats: InterfaceStats) -> (r: Result<(), Error>)
        ensures
            final (self).info_model() == old(self).info_model(),
            final (self).retained().len() == final (self).info_model().len(),
    {
        proof {
            use_type_invariant(&*self);
        }
        let mess = Message::delta_message(&self.info, &stats, &self.prev_stats);
        let _receivers = publish(&self.writer, mess);
        self.prev_stats = stats;
        Ok(())
    }
}

} // verus!

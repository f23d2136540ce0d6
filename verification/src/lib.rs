//! Periodic sampling of per-network-interface byte counters, an
//! interval-delta algebra over the sampled snapshots, and a bounded
//! publish/subscribe hub that fans the resulting update messages out to
//! independently paced subscribers.

use vstd::prelude::*;

use crate::utils::NumBytes;

pub mod hub;
pub mod monitor;
pub mod reader;
pub mod utils;
pub mod writer;

verus! {

/// Errors of the library. Listing the interfaces can fail at startup,
/// which is fatal, since no interface set could be established.
#[derive(Debug)]
pub enum Error {
    /// An OS call failed; the field is its errno value.
    NixError(i32),
    /// Any other failure, described by a fixed message.
    Other(&'static str),
}

/// Identifies one network interface. Immutable once created.
#[derive(Debug, PartialEq)]
pub struct InterfaceInfoItem {
    pub name: String,
}

impl Clone for InterfaceInfoItem {
    /// A clone is the identical item.
    fn clone(&self) -> (r: Self)
        ensures
            r == *self,
    {
        InterfaceInfoItem { name: self.name.clone() }
    }
}

/// The ordered set of interfaces frozen at enumerator construction.
/// Its order defines the index space used by every later snapshot, and
/// its length is the universal `N` for the process lifetime.
#[derive(Debug, PartialEq)]
pub struct InterfaceInfo(pub Vec<InterfaceInfoItem>);

impl Clone for InterfaceInfo {
    /// A clone carries the identical interface names.
    fn clone(&self) -> (r: Self)
        ensures
            r.0@ == self.0@,
            r@ == self@,
    {
        let mut items: Vec<InterfaceInfoItem> = Vec::new();
        let n = self.0.len();
        let mut i: usize = 0;
        while i < n
            invariant
                i <= n,
                n == self.0@.len(),
                items@ == self.0@.take(i as int),
            decreases n - i,
        {
            items.push(self.0[i].clone());
            proof {
                assert(items@ =~= self.0@.take(i + 1));
            }
            i += 1;
        }
        proof {
            assert(self.0@.take(n as int) =~= self.0@);
        }
        InterfaceInfo(items)
    }
}

impl View for InterfaceInfo {
    type V = Seq<Seq<char>>;

    /// An interface set is modelled by the sequence of its names.
    open spec fn view(&self) -> Seq<Seq<char>> {
        self.0@.map_values(|item: InterfaceInfoItem| item.name@)
    }
}

impl InterfaceInfo {
    /// Number of interfaces in the frozen set.
    pub fn len(&self) -> (r: usize)
        ensures
            r == self@.len(),
    {
        self.0.len()
    }

    /// Position of the first interface called `name`, if any.
    pub fn index_of(&self, name: &String) -> (r: Option<usize>)
        ensures
            r matches Some(j) ==> j < self@.len() && self@[j as int] == name@
                && (forall|k: int| 0 <= k < j ==> self@[k] != name@),
            r is None ==> forall|k: int| 0 <= k < self@.len() ==> self@[k] != name@,
    {
        let mut j: usize = 0;
        while j < self.0.len()
            invariant
                j <= self.0.len(),
                forall|k: int| 0 <= k < j ==> self@[k] != name@,
            decreases self.0.len() - j,
        {
            if self.0[j].name == *name {
                assert(self@[j as int] == name@);
                return Some(j);
            }
            j += 1;
        }
        None
    }
}

/// The byte counters of one interface at one instant (or the traffic of
/// one interval, once a delta has been taken).
#[derive(Clone, Copy, Debug, PartialEq, Eq, Structural)]
pub struct InterfaceStat {
    pub rx: NumBytes,
    pub tx: NumBytes,
}

/// The element-wise delta of two readings of one interface's counters.
pub open spec fn stat_delta(cur: InterfaceStat, prev: InterfaceStat) -> InterfaceStat {
    InterfaceStat {
        rx: NumBytes { bytes: crate::utils::counter_delta(cur.rx.bytes, prev.rx.bytes) },
        tx: NumBytes { bytes: crate::utils::counter_delta(cur.tx.bytes, prev.tx.bytes) },
    }
}

impl InterfaceStat {
    /// The traffic between a previous reading `prev` and this reading,
    /// taken counter by counter.
    pub fn delta(&self, prev: &InterfaceStat) -> (r: InterfaceStat)
        ensures
            r == stat_delta(*self, *prev),
    {
        InterfaceStat { rx: self.rx.delta(&prev.rx), tx: self.tx.delta(&prev.tx) }
    }
}

/// A snapshot of length `n` in which no interface has data.
pub open spec fn all_none(n: nat) -> Seq<Option<InterfaceStat>> {
    Seq::new(n, |i: int| None::<InterfaceStat>)
}

/// The element-wise delta of two equal-length snapshots: defined at an
/// index exactly when both operands carry data there.
pub open spec fn stats_delta(
    cur: Seq<Option<InterfaceStat>>,
    prev: Seq<Option<InterfaceStat>>,
) -> Seq<Option<InterfaceStat>> {
    Seq::new(
        cur.len(),
        |i: int| match (cur[i], prev[i]) {
            (Some(a), Some(b)) => Some(stat_delta(a, b)),
            _ => None,
        },
    )
}

/// One complete set of per-interface counter readings, positionally
/// aligned to the frozen `InterfaceInfo`. `None` at an index means no
/// data was obtainable for that interface this round, which is distinct
/// from zero traffic.
#[derive(Clone, Debug, PartialEq)]
pub struct InterfaceStats(pub Vec<Option<InterfaceStat>>);

impl View for InterfaceStats {
    type V = Seq<Option<InterfaceStat>>;

    open spec fn view(&self) -> Seq<Option<InterfaceStat>> {
        self.0@
    }
}

impl InterfaceStats {
    /// A snapshot of length `len` with every entry `None`.
    pub fn empty(len: usize) -> (r: InterfaceStats)
        ensures
            r@ == all_none(len as nat),
            r@.len() == len,
            forall|i: int| 0 <= i < len ==> r@[i] is None,
    {
        let mut entries: Vec<Option<InterfaceStat>> = Vec::new();
        let mut i: usize = 0;
        while i < len
            invariant
                i <= len,
                entries@.len() == i,
                forall|k: int| 0 <= k < i ==> entries@[k] is None,
            decreases len - i,
        {
            entries.push(None);
            i += 1;
        }
        let r = InterfaceStats(entries);
        assert(r@ =~= all_none(len as nat));
        r
    }

    /// The traffic during the interval between the `prev` snapshot and
    /// this one. Both must stem from the same frozen interface set, so
    /// unequal lengths are an invariant violation and excluded here.
    pub fn delta(&self, prev: &InterfaceStats) -> (r: InterfaceStats)
        requires
            self@.len() == prev@.len(),
        ensures
            r@ == stats_delta(self@, prev@),
    {
        let n = self.0.len();
        let mut entries: Vec<Option<InterfaceStat>> = Vec::new();
        let mut i: usize = 0;
        while i < n
            invariant
                i <= n,
                n == self@.len() == prev@.len(),
                entries@.len() == i,
                forall|k: int| 0 <= k < i ==> entries@[k] == stats_delta(self@, prev@)[k],
            decreases n - i,
        {
            let next = match (self.0[i], prev.0[i]) {
                (Some(a), Some(b)) => Some(a.delta(&b)),
                _ => None,
            };
            entries.push(next);
            i += 1;
        }
        let r = InterfaceStats(entries);
        assert(r@ =~= stats_delta(self@, prev@));
        r
    }
}

/// The delta snapshot carries data at an index exactly when both of its
/// operands do.
pub proof fn lemma_stats_delta_structure(
    cur: Seq<Option<InterfaceStat>>,
    prev: Seq<Option<InterfaceStat>>,
    i: int,
)
    requires
        cur.len() == prev.len(),
        0 <= i < cur.len(),
    ensures
        stats_delta(cur, prev)[i] is Some <==> (cur[i] is Some && prev[i] is Some),
        cur[i] matches Some(a) ==> (prev[i] matches Some(b) ==> stats_delta(cur, prev)[i]
            == Some(stat_delta(a, b))),
{
}

/// One complete published update. `info` is invariant across all
/// messages of a run, and `stats` is always positionally aligned to it.
#[derive(Clone)]
pub struct Message {
    pub info: InterfaceInfo,
    pub stats: InterfaceStats,
}

impl Message {
    /// The one message a tick publishes: the frozen interface set,
    /// unchanged, and the element-wise delta of the fresh snapshot
    /// `cur` against the retained snapshot `prev`, which is as wide as
    /// `cur` itself.
    pub fn delta_message(info: &InterfaceInfo, cur: &InterfaceStats, prev: &InterfaceStats) -> (m:
        Message)
        requires
            cur@.len() == prev@.len(),
        ensures
            m.info@ == info@,
            m.stats@ == stats_delta(cur@, prev@),
            m.stats@.len() == cur@.len(),
    {
        Message { info: info.clone(), stats: cur.delta(prev) }
    }
}

/// Every delta message is as wide as the interface set its snapshots
/// were read for: a message built from snapshots aligned to the frozen
/// set carries stats of exactly the set's width.
pub proof fn lemma_message_aligned(
    info: Seq<Seq<char>>,
    cur: Seq<Option<InterfaceStat>>,
    prev: Seq<Option<InterfaceStat>>,
)
    requires
        cur.len() == info.len(),
    ensures
        stats_delta(cur, prev).len() == info.len(),
{
}

} // verus!

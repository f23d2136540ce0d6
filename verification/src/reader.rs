//! The platform interface enumerator: the filter that selects the
//! link-level, up interfaces out of an OS interface listing, the decoder
//! for the kernel's per-link statistics payload, and the reader that
//! turns a listing into a snapshot aligned to the frozen interface set.
//!
//! The raw listing itself is obtained by the surrounding program from
//! the OS and handed in as plain values: one `InterfaceAddress` record
//! per listed address, in OS-returned order.

use vstd::prelude::*;

use crate::utils::NumBytes;
use crate::{all_none, Error, InterfaceInfo, InterfaceInfoItem, InterfaceStat, InterfaceStats};

verus! {

/// The numeric address family of link-level (packet) addresses on the
/// supported platform family, `AF_PACKET`.
pub const LINK_ADDRESS_FAMILY: u32 = 17;

/// The `IFF_UP` bit of an interface's flag word.
pub const IFF_UP_FLAG: u64 = 1;

/// Byte length of the kernel's fixed 32-bit per-link statistics block:
/// twenty-four 32-bit fields.
pub const LINK_STATS32_LEN: usize = 96;

/// Byte offset of the received-bytes field within the statistics block.
pub const RX_BYTES_OFFSET: usize = 8;

/// Byte offset of the transmitted-bytes field within the statistics
/// block.
pub const TX_BYTES_OFFSET: usize = 12;

/// One record of an OS interface listing, reduced to the plain values
/// this library reads: the interface name, the numeric address family
/// of the record's address (`None` when the record carries no address),
/// the interface flag word, and the raw statistics payload attached to
/// the record, if any.
#[derive(Clone, Debug, PartialEq)]
pub struct InterfaceAddress {
    /// Name of the network interface.
    pub interface_name: String,
    /// Numeric address family of this record's address, if it has one.
    pub family: Option<u32>,
    /// Flag word of the interface, as the OS reports it.
    pub flags: u64,
    /// Raw address-family-specific data block, if the OS attached one.
    pub data: Option<Vec<u8>>,
}

impl InterfaceAddress {
    /// Whether this record belongs to the frozen interface set: its
    /// address is link-level and its interface is up.
    pub open spec fn is_target_spec(&self) -> bool {
        self.family == Some(LINK_ADDRESS_FAMILY) && self.flags & IFF_UP_FLAG != 0
    }

    /// Returns false if this record should be ignored.
    pub fn is_target(&self) -> (r: bool)
        ensures
            r == self.is_target_spec(),
    {
        match self.family {
            Some(family) => family == LINK_ADDRESS_FAMILY && self.flags & IFF_UP_FLAG != 0,
            None => false,
        }
    }
}

/// The two byte counters decoded out of one statistics payload, still
/// at the kernel's 32-bit width.
#[derive(Clone, Copy, Debug, PartialEq, Eq, Hash, Structural)]
pub struct IfData {
    pub ifi_ibytes: u32,
    pub ifi_obytes: u32,
}

/// The 32-bit value stored little-endian (the byte order of the
/// supported targets) at offset `off` of a payload.
pub open spec fn le_u32_at(payload: Seq<u8>, off: int) -> u32 {
    (payload[off] as u32) | ((payload[off + 1] as u32) << 8) | ((payload[off + 2] as u32) << 16)
        | ((payload[off + 3] as u32) << 24)
}

/// What decoding a raw statistics payload yields: the two counters at
/// their documented offsets when the payload has the block's exact
/// length, and nothing otherwise.
pub open spec fn decode_payload(payload: Seq<u8>) -> Option<IfData> {
    if payload.len() == LINK_STATS32_LEN {
        Some(
            IfData {
                ifi_ibytes: le_u32_at(payload, RX_BYTES_OFFSET as int),
                ifi_obytes: le_u32_at(payload, TX_BYTES_OFFSET as int),
            },
        )
    } else {
        None
    }
}

impl IfData {
    /// Decodes a raw statistics payload: reads the received-bytes and
    /// transmitted-bytes fields at their documented offsets and ignores
    /// every other field. A payload of the wrong length fails to
    /// decode.
    pub fn from_payload(payload: &Vec<u8>) -> (r: Option<IfData>)
        ensures
            r == decode_payload(payload@),
    {
        if payload.len() != LINK_STATS32_LEN {
            return None;
        }
        let ibytes = read_le_u32(payload, RX_BYTES_OFFSET);
        let obytes = read_le_u32(payload, TX_BYTES_OFFSET);
        Some(IfData { ifi_ibytes: ibytes, ifi_obytes: obytes })
    }
}

/// Reads the little-endian 32-bit value at offset `off`.
fn read_le_u32(payload: &Vec<u8>, off: usize) -> (r: u32)
    requires
        off + 4 <= payload@.len(),
    ensures
        r == le_u32_at(payload@, off as int),
{
    let len = payload.len();
    assert(off + 4 <= len);
    let b0 = payload[off] as u32;
    let b1 = payload[off + 1] as u32;
    let b2 = payload[off + 2] as u32;
    let b3 = payload[off + 3] as u32;
    b0 | (b1 << 8u32) | (b2 << 16u32) | (b3 << 24u32)
}

/// The interface counters of one decoded payload, widened to the 64-bit
/// counter type of the snapshot model.
pub open spec fn stat_of_ifdata(d: IfData) -> InterfaceStat {
    InterfaceStat {
        rx: NumBytes { bytes: d.ifi_ibytes as u64 },
        tx: NumBytes { bytes: d.ifi_obytes as u64 },
    }
}

/// Position of the first name in `names` equal to `name`.
pub open spec fn first_index(names: Seq<Seq<char>>, name: Seq<char>) -> Option<int>
    decreases names.len(),
{
    if names.len() == 0 {
        None
    } else if names[0] == name {
        Some(0int)
    } else {
        match first_index(names.skip(1), name) {
            Some(j) => Some(j + 1),
            None => None,
        }
    }
}

/// `first_index` agrees with the search a left-to-right scan performs.
proof fn lemma_first_index_found(names: Seq<Seq<char>>, name: Seq<char>, j: int)
    requires
        0 <= j < names.len(),
        names[j] == name,
        forall|k: int| 0 <= k < j ==> names[k] != name,
    ensures
        first_index(names, name) == Some(j),
    decreases j,
{
    if j == 0 {
    } else {
        assert(names[0] != name);
        lemma_first_index_found(names.skip(1), name, j - 1);
    }
}

/// When no name matches, `first_index` finds nothing.
proof fn lemma_first_index_missing(names: Seq<Seq<char>>, name: Seq<char>)
    requires
        forall|k: int| 0 <= k < names.len() ==> names[k] != name,
    ensures
        first_index(names, name) is None,
    decreases names.len(),
{
    if names.len() > 0 {
        lemma_first_index_missing(names.skip(1), name);
    }
}

/// How one listing record changes a snapshot under construction: a
/// record of the target family that carries a decodable payload and
/// names a frozen interface overwrites that interface's entry; every
/// other record leaves the snapshot unchanged.
pub open spec fn record_step(
    info: Seq<Seq<char>>,
    stats: Seq<Option<InterfaceStat>>,
    rec: InterfaceAddress,
) -> Seq<Option<InterfaceStat>> {
    if rec.is_target_spec() {
        match rec.data {
            Some(payload) => match decode_payload(payload@) {
                Some(d) => match first_index(info, rec.interface_name@) {
                    Some(j) => stats.update(j, Some(stat_of_ifdata(d))),
                    None => stats,
                },
                None => stats,
            },
            None => stats,
        }
    } else {
        stats
    }
}

/// The snapshot a listing yields for the frozen interface set `info`:
/// start from all-`None` and fold the records in OS order.
pub open spec fn stats_after(
    info: Seq<Seq<char>>,
    records: Seq<InterfaceAddress>,
) -> Seq<Option<InterfaceStat>>
    decreases records.len(),
{
    if records.len() == 0 {
        all_none(info.len())
    } else {
        record_step(info, stats_after(info, records.drop_last()), records.last())
    }
}

/// A found index always lies inside the searched names.
proof fn lemma_first_index_in_bounds(names: Seq<Seq<char>>, name: Seq<char>)
    ensures
        first_index(names, name) matches Some(j) ==> 0 <= j < names.len(),
    decreases names.len(),
{
    if names.len() > 0 && names[0] != name {
        lemma_first_index_in_bounds(names.skip(1), name);
    }
}

/// One record never changes the length of an aligned snapshot.
proof fn lemma_record_step_len(
    info: Seq<Seq<char>>,
    stats: Seq<Option<InterfaceStat>>,
    rec: InterfaceAddress,
)
    requires
        stats.len() == info.len(),
    ensures
        record_step(info, stats, rec).len() == stats.len(),
{
    lemma_first_index_in_bounds(info, rec.interface_name@);
}

/// A snapshot built from any listing is aligned to the interface set.
pub proof fn lemma_stats_after_len(info: Seq<Seq<char>>, records: Seq<InterfaceAddress>)
    ensures
        stats_after(info, records).len() == info.len(),
    decreases records.len(),
{
    if records.len() == 0 {
        assert(all_none(info.len()).len() == info.len());
    } else {
        lemma_stats_after_len(info, records.drop_last());
        lemma_record_step_len(info, stats_after(info, records.drop_last()), records.last());
    }
}

/// Two read operations over the same frozen interface set yield
/// snapshots of identical length, both positionally aligned to that
/// set, whatever the two listings contained.
pub proof fn lemma_reads_aligned(
    info: Seq<Seq<char>>,
    records1: Seq<InterfaceAddress>,
    records2: Seq<InterfaceAddress>,
)
    ensures
        stats_after(info, records1).len() == stats_after(info, records2).len(),
        stats_after(info, records1).len() == info.len(),
{
    lemma_stats_after_len(info, records1);
    lemma_stats_after_len(info, records2);
}

/// Computes the snapshot of a listing for the frozen interface set
/// `info`. For each frozen interface, the last listing record of the
/// target family that bears its name and a decodable payload supplies
/// the entry; an interface no such record names stays `None`. A failed
/// listing yields the all-`None` snapshot: a transient read failure is
/// never fatal.
pub fn read_stats(info: &InterfaceInfo, listing: &Result<Vec<InterfaceAddress>, i32>) -> (r:
    InterfaceStats)
    ensures
        r@.len() == info@.len(),
        (*listing) matches Ok(records) ==> r@ == stats_after(info@, records@),
        (*listing) is Err ==> r@ == all_none(info@.len()),
{
    let mut stats = InterfaceStats::empty(info.len());
    let records = match listing {
        Err(_) => {
            return stats;
        },
        Ok(records) => records,
    };
    let n = records.len();
    let mut i: usize = 0;
    assert(records@.take(0) =~= Seq::<InterfaceAddress>::empty());
    while i < n
        invariant
            i <= n,
            n == records@.len(),
            stats@ == stats_after(info@, records@.take(i as int)),
            stats@.len() == info@.len(),
        decreases n - i,
    {
        let rec = &records[i];
        let ghost prefix = records@.take(i as int);
        if rec.is_target() {
            if let Some(payload) = &rec.data {
                if let Some(d) = IfData::from_payload(payload) {
                    if let Some(j) = info.index_of(&rec.interface_name) {
                        proof {
                            lemma_first_index_found(info@, rec.interface_name@, j as int);
                        }
                        stats.0.set(j, Some(InterfaceStat {
                            rx: NumBytes::from_u64(d.ifi_ibytes as u64),
                            tx: NumBytes::from_u64(d.ifi_obytes as u64),
                        }));
                    } else {
                        proof {
                            lemma_first_index_missing(info@, rec.interface_name@);
                        }
                    }
                }
            }
        }
        proof {
            assert(records@.take(i + 1).drop_last() =~= prefix);
            assert(records@.take(i + 1).last() == records@[i as int]);
            assert(stats@ == record_step(info@, stats_after(info@, prefix), records@[i as int]));
        }
        i += 1;
    }
    proof {
        assert(records@.take(n as int) =~= records@);
    }
    stats
}

/// An interface-listing source: the capability the poll loop reads
/// from. `get_info` exposes the interface set frozen at construction,
/// and `read` turns one fresh listing into a snapshot aligned to it.
pub trait Read {
    /// The frozen interface set, as the sequence of its names.
    spec fn info_model(&self) -> Seq<Seq<char>>;

    /// The snapshot this source yields for a given listing.
    spec fn snapshot_model(&self, listing: &Result<Vec<InterfaceAddress>, i32>) -> Seq<
        Option<InterfaceStat>,
    >;

    /// Returns the frozen set captured at construction.
    fn get_info(&self) -> (r: &InterfaceInfo)
        ensures
            r@ == self.info_model(),
    ;

    /// Computes the snapshot of one fresh listing: exactly the source's
    /// snapshot model of it, positionally aligned to the frozen set.
    fn read(&self, listing: &Result<Vec<InterfaceAddress>, i32>) -> (r: InterfaceStats)
        ensures
            r@ == self.snapshot_model(listing),
            r@.len() == self.info_model().len(),
    ;
}

/// The names of the target-family, up interfaces of a listing, in
/// OS-returned order.
pub open spec fn target_names(records: Seq<InterfaceAddress>) -> Seq<Seq<char>>
    decreases records.len(),
{
    if records.len() == 0 {
        Seq::empty()
    } else {
        let prefix = target_names(records.drop_last());
        if records.last().is_target_spec() {
            prefix.push(records.last().interface_name@)
        } else {
            prefix
        }
    }
}

/// The enumerator over the OS interface listing. It freezes the
/// interface set out of the listing made at construction; later
/// listings are reduced to snapshots against that set.
pub struct LibcReader {
    /// The frozen interface set.
    pub info: InterfaceInfo,
}

impl LibcReader {
    /// Builds the enumerator from one interface-listing pass: retains
    /// the interfaces whose address family is the platform's link-layer
    /// family and whose up flag is set, in OS-returned order, and
    /// freezes their names. A failed listing is fatal at startup, since
    /// no interface set could be established.
    pub fn new(listing: &Result<Vec<InterfaceAddress>, i32>) -> (r: Result<LibcReader, Error>)
        ensures
            (*listing) matches Ok(records) ==> (r matches Ok(reader) && reader.info@
                == target_names(records@)),
            (*listing) matches Err(e) ==> (r matches Err(err) && err == Error::NixError(e)),
    {
        let records = match listing {
            Err(e) => {
                return Err(Error::NixError(*e));
            },
            Ok(records) => records,
        };
        let mut items: Vec<InterfaceInfoItem> = Vec::new();
        let n = records.len();
        let mut i: usize = 0;
        assert(records@.take(0) =~= Seq::<InterfaceAddress>::empty());
        assert(items@.map_values(|item: InterfaceInfoItem| item.name@) =~= target_names(
            records@.take(0),
        ));
        while i < n
            invariant
                i <= n,
                n == records@.len(),
                items@.map_values(|item: InterfaceInfoItem| item.name@) == target_names(
                    records@.take(i as int),
                ),
            decreases n - i,
        {
            let ghost prefix = records@.take(i as int);
            let rec = &records[i];
            if rec.is_target() {
                items.push(InterfaceInfoItem { name: rec.interface_name.clone() });
            }
            proof {
                assert(records@.take(i + 1).drop_last() =~= prefix);
                assert(records@.take(i + 1).last() == records@[i as int]);
                assert(items@.map_values(|item: InterfaceInfoItem| item.name@) =~= target_names(
                    records@.take(i + 1),
                ));
            }
            i += 1;
        }
        proof {
            assert(records@.take(n as int) =~= records@);
        }
        Ok(LibcReader { info: InterfaceInfo(items) })
    }
}

impl Read for LibcReader {
    open spec fn info_model(&self) -> Seq<Seq<char>> {
        self.info@
    }

    /// A good listing yields its fold over the frozen set; a failed one
    /// yields the all-`None` snapshot.
    open spec fn snapshot_model(&self, listing: &Result<Vec<InterfaceAddress>, i32>) -> Seq<
        Option<InterfaceStat>,
    > {
        match *listing {
            Ok(records) => stats_after(self.info@, records@),
            Err(_) => all_none(self.info@.len()),
        }
    }

    fn get_info(&self) -> (r: &InterfaceInfo) {
        &self.info
    }

    /// Re-performs the reduction of a fresh listing to a snapshot; a
    /// listing that failed this round yields the all-`None` snapshot
    /// rather than an error.
    fn read(&self, listing: &Result<Vec<InterfaceAddress>, i32>) -> (r: InterfaceStats) {
        let r = read_stats(&self.info, listing);
        proof {
            match listing {
                Ok(records) => lemma_stats_after_len(self.info@, records@),
                Err(_) => {},
            }
        }
        r
    }
}

} // verus!

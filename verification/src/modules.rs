//! Module listing through the handle-and-buffer protocol.
//!
//! Listing the modules of an opened process is a two-step native query: the
//! caller offers a buffer of module-handle slots, and the query reports how
//! many slots the full list needs. The first attempt uses a fixed number of
//! slots; if it fails, the buffer is grown to the reported size and the
//! query is retried exactly once. The slots actually filled are then cut at
//! the first null handle, and each surviving handle's detail queries are
//! assembled into [`ModuleInfo`] records.

use crate::directory::ModuleInfo;
use vstd::prelude::*;

verus! {

/// Number of module-handle slots offered on the first query attempt.
pub const INITIAL_MODULE_SLOTS: usize = 64;

/// What the caller must do after reporting one query attempt.
#[derive(Clone, Copy, Debug, PartialEq, Eq, Structural)]
pub enum QueryStatus {
    /// The query succeeded; the first `count` buffer slots are meaningful.
    Complete { count: usize },
    /// The first attempt failed; retry once with the grown capacity.
    Retry,
    /// The retry failed too; the listing has no result.
    Failed,
}

/// Buffer-sizing state for one module listing: at most two query attempts,
/// with the buffer grown to the reported requirement after the first.
pub struct ModuleListQuery {
    capacity: usize,
    attempts: u32,
}

impl ModuleListQuery {
    /// How many slots the caller's buffer must offer on the next attempt.
    pub closed spec fn spec_capacity(self) -> usize {
        self.capacity
    }

    /// How many attempts have been reported so far.
    pub closed spec fn spec_attempts(self) -> u32 {
        self.attempts
    }

    /// A fresh listing: no attempt made, initial buffer size.
    pub fn new() -> (q: ModuleListQuery)
        ensures
            q.spec_capacity() == INITIAL_MODULE_SLOTS,
            q.spec_attempts() == 0,
    {
        ModuleListQuery { capacity: INITIAL_MODULE_SLOTS, attempts: 0 }
    }

    /// How many slots the caller's buffer must offer on the next attempt.
    pub fn capacity(&self) -> (c: usize)
        ensures
            c == self.spec_capacity(),
    {
        self.capacity
    }

    /// How many attempts have been reported so far.
    pub fn attempts(&self) -> (a: u32)
        ensures
            a == self.spec_attempts(),
    {
        self.attempts
    }

    /// Reports the outcome of one native query attempt: whether it
    /// succeeded, and how many slots it said the full list needs. After the
    /// first attempt the buffer capacity becomes the reported requirement,
    /// whether or not that attempt succeeded. A successful attempt ends the
    /// query with the number of slots safe to read — never more than the
    /// buffer that was offered holds. A failed first attempt asks for the
    /// single retry; a failed retry ends the query without a result.
    pub fn report(&mut self, success: bool, needed_slots: usize) -> (s: QueryStatus)
        requires
            old(self).spec_attempts() < 2,
        ensures
            final(self).spec_attempts() == old(self).spec_attempts() + 1,
            old(self).spec_attempts() == 0 ==> final(self).spec_capacity() == needed_slots,
            old(self).spec_attempts() == 1 ==> final(self).spec_capacity() == old(
                self,
            ).spec_capacity(),
            success ==> s == (QueryStatus::Complete {
                count: if needed_slots <= final(self).spec_capacity() {
                    needed_slots
                } else {
                    final(self).spec_capacity()
                },
            }),
            !success && old(self).spec_attempts() == 0 ==> s == QueryStatus::Retry,
            !success && old(self).spec_attempts() == 1 ==> s == QueryStatus::Failed,
    {
        let first = self.attempts == 0;
        self.attempts = self.attempts + 1;
        if first {
            self.capacity = needed_slots;
        }
        if success {
            let count = if needed_slots <= self.capacity {
                needed_slots
            } else {
                self.capacity
            };
            QueryStatus::Complete { count }
        } else if first {
            QueryStatus::Retry
        } else {
            QueryStatus::Failed
        }
    }
}

/// Cuts the filled part of the slot buffer at the first null module handle:
/// the result is the longest run of non-null handles from the front of the
/// first `count` slots.
pub fn leading_handles(handles: &Vec<u64>, count: usize) -> (v: Vec<u64>)
    ensures
        v@.len() <= count,
        v@.len() <= handles@.len(),
        v@ == handles@.subrange(0, v@.len() as int),
        forall|k: int| 0 <= k < v@.len() ==> handles@[k] != 0,
        v@.len() < count && v@.len() < handles@.len() ==> handles@[v@.len() as int] == 0,
{
    let mut v: Vec<u64> = Vec::new();
    let mut i: usize = 0;
    while i < count && i < handles.len()
        invariant
            i <= count,
            i <= handles@.len(),
            v@ == handles@.subrange(0, i as int),
            forall|k: int| 0 <= k < i ==> handles@[k] != 0,
        decreases count - i,
    {
        let h = handles[i];
        if h == 0 {
            return v;
        }
        v.push(h);
        assert(v@ =~= handles@.subrange(0, i + 1));
        i += 1;
    }
    v
}

/// The detail-query replies for one non-null module handle: whether the
/// module-information query succeeded and the image size it reported, and
/// whether the display-name query succeeded and the name it produced.
pub struct ModuleRecord {
    pub handle: u64,
    pub info_ok: bool,
    pub size: u32,
    pub name_ok: bool,
    pub name: String,
}

/// The mathematical shape of one assembled module record.
pub struct ModuleFields {
    pub name: Seq<char>,
    pub base_address: u64,
    pub size: u32,
}

impl View for ModuleInfo {
    type V = ModuleFields;

    open spec fn view(&self) -> ModuleFields {
        ModuleFields { name: self.name@, base_address: self.base_address, size: self.size }
    }
}

/// The records of `rs` whose detail queries both succeeded, in order, each
/// mapped to its module: the handle as load address, the reported size and
/// the resolved name.
pub open spec fn assembled_modules(rs: Seq<ModuleRecord>) -> Seq<ModuleFields>
    decreases rs.len(),
{
    if rs.len() == 0 {
        Seq::empty()
    } else {
        let rest = assembled_modules(rs.drop_last());
        let last = rs.last();
        if last.info_ok && last.name_ok {
            rest.push(
                ModuleFields { name: last.name@, base_address: last.handle, size: last.size },
            )
        } else {
            rest
        }
    }
}

/// Assembles the detail-query replies into module records, keeping exactly
/// the handles whose two queries succeeded, in their buffer order.
pub fn assemble_records(records: &Vec<ModuleRecord>) -> (v: Vec<ModuleInfo>)
    ensures
        v@.map_values(|m: ModuleInfo| m@) == assembled_modules(records@),
{
    let mut v: Vec<ModuleInfo> = Vec::new();
    let mut i: usize = 0;
    while i < records.len()
        invariant
            i <= records@.len(),
            v@.map_values(|m: ModuleInfo| m@) == assembled_modules(records@.subrange(0, i as int)),
        decreases records@.len() - i,
    {
        let rec = &records[i];
        proof {
            assert(records@.subrange(0, i + 1).drop_last() =~= records@.subrange(0, i as int));
            assert(records@.subrange(0, i + 1).last() == records@[i as int]);
        }
        if rec.info_ok && rec.name_ok {
            let info = ModuleInfo {
                name: rec.name.clone(),
                base_address: rec.handle,
                size: rec.size,
            };
            v.push(info);
            assert(v@.map_values(|m: ModuleInfo| m@) =~= v@.drop_last().map_values(
                |m: ModuleInfo| m@,
            ).push(v@.last()@));
        } else {
            assert(v@.map_values(|m: ModuleInfo| m@) == assembled_modules(
                records@.subrange(0, i + 1),
            ));
        }
        i += 1;
    }
    proof {
        assert(records@.subrange(0, records@.len() as int) =~= records@);
    }
    v
}

} // verus!

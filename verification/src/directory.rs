//! Directory views: process, thread and module enumeration over one
//! snapshot pass.
//!
//! Each view wraps a [`SnapshotIterator`], decodes the fixed-shape native
//! row into a domain record, and — for the thread directory — filters the
//! system-wide row stream down to the threads of one owning process. The
//! caller fetches rows from the operating system and hands each outcome in;
//! the record handed back is always an independent copy of the row, never a
//! reference into storage that a later fetch overwrites.

use crate::snapshot::{FetchKind, SnapshotIterator};
use vstd::prelude::*;

verus! {

/// A decoded process row: numeric id and executable name.
pub struct ProcessRow {
    pub pid: u32,
    pub name: String,
}

/// A decoded thread row: the owning process id and the thread id.
#[derive(Clone, Copy, Debug, PartialEq, Eq, Structural)]
pub struct ThreadRow {
    pub owner_pid: u32,
    pub tid: u32,
}

/// A decoded module row: display name, load address and image size.
pub struct ModuleRow {
    pub name: String,
    pub base_address: u64,
    pub size: u32,
}

/// One running process, as surfaced by the process directory.
pub struct ProcessInfo {
    pub pid: u32,
    pub name: String,
}

/// One thread of the scoped process, as surfaced by the thread directory.
#[derive(Clone, Copy, Debug, PartialEq, Eq, Structural)]
pub struct ThreadInfo {
    pub owning_pid: u32,
    pub tid: u32,
}

/// One loaded module, as surfaced by the module directory or the module
/// listing of an opened process.
pub struct ModuleInfo {
    pub name: String,
    pub base_address: u64,
    pub size: u32,
}

/// What one enumeration step of a filtering directory produced.
#[derive(Clone, Copy, Debug, PartialEq, Eq, Structural)]
pub enum ThreadStep {
    /// The row belongs to the scoped process; its record is surfaced.
    Yielded(ThreadInfo),
    /// The row belongs to another process; fetching must continue.
    Skipped,
    /// The underlying sequence has ended; it stays ended.
    End,
}

/// The thread records of `rows` whose owner is `scope`, in row order.
pub open spec fn thread_matches(scope: u32, rows: Seq<ThreadRow>) -> Seq<ThreadInfo>
    decreases rows.len(),
{
    if rows.len() == 0 {
        Seq::empty()
    } else {
        let rest = thread_matches(scope, rows.drop_last());
        let last = rows.last();
        if last.owner_pid == scope {
            rest.push(ThreadInfo { owning_pid: last.owner_pid, tid: last.tid })
        } else {
            rest
        }
    }
}

/// Every record the thread filter surfaces is owned by the scoped process;
/// skipping never drops a matching row, so the surfaced records can never
/// outnumber the rows handed in.
pub proof fn lemma_thread_matches_scope(scope: u32, rows: Seq<ThreadRow>)
    ensures
        forall|j: int|
            0 <= j < thread_matches(scope, rows).len() ==> #[trigger] thread_matches(
                scope,
                rows,
            )[j].owning_pid == scope,
        thread_matches(scope, rows).len() <= rows.len(),
    decreases rows.len(),
{
    if rows.len() > 0 {
        lemma_thread_matches_scope(scope, rows.drop_last());
    }
}

/// System-wide process enumeration: every row becomes a record.
pub struct ProcessDirectory {
    iter: SnapshotIterator,
}

impl ProcessDirectory {
    /// The snapshot handle this directory's one pass runs over.
    pub closed spec fn spec_handle(self) -> u64 {
        self.iter.spec_handle()
    }

    /// Whether the pass has ended.
    pub closed spec fn finished(self) -> bool {
        self.iter.finished()
    }

    /// The owned handle is never the invalid sentinel.
    pub closed spec fn wf(self) -> bool {
        self.iter.wf()
    }

    /// Starts one pass over an already-created process snapshot.
    pub fn new(snapshot_handle: u64) -> (d: ProcessDirectory)
        requires
            snapshot_handle != crate::INVALID_HANDLE,
        ensures
            d.wf(),
            d.spec_handle() == snapshot_handle,
            !d.finished(),
    {
        ProcessDirectory { iter: SnapshotIterator::new(snapshot_handle) }
    }

    /// Which native fetch the caller must perform next, if any.
    pub fn pending_fetch(&self) -> (k: FetchKind)
        ensures
            k == FetchKind::Exhausted <==> self.finished(),
    {
        self.iter.pending_fetch()
    }

    /// Hands in the outcome of one fetch. A fetched row is decoded into an
    /// independent [`ProcessInfo`]; a failed fetch ends the pass for good.
    pub fn accept(&mut self, fetched: bool, row: &ProcessRow) -> (r: Option<ProcessInfo>)
        ensures
            final(self).spec_handle() == old(self).spec_handle(),
            final(self).wf() == old(self).wf(),
            old(self).finished() ==> r is None && final(self).finished(),
            !old(self).finished() && !fetched ==> r is None && final(self).finished(),
            !old(self).finished() && fetched ==> {
                &&& !final(self).finished()
                &&& r matches Some(info) && info.pid == row.pid && info.name@ == row.name@
            },
    {
        if self.iter.advance(fetched) {
            Some(ProcessInfo { pid: row.pid, name: row.name.clone() })
        } else {
            None
        }
    }

    /// Surrenders the snapshot handle for release; consumes the directory.
    pub fn release(self) -> (h: u64)
        ensures
            h == self.spec_handle(),
    {
        self.iter.release()
    }
}

/// System-wide thread enumeration filtered to one owning process.
///
/// The raw enumeration interleaves rows of unrelated processes; rows whose
/// owner differs from the scope are skipped, and enumeration continues past
/// them rather than stopping at the first mismatch. At every point the
/// records surfaced so far are exactly the matching rows among those handed
/// in, in their original relative order.
pub struct ThreadDirectory {
    iter: SnapshotIterator,
    scope: u32,
    offered: Ghost<Seq<ThreadRow>>,
    yielded: Ghost<Seq<ThreadInfo>>,
}

impl ThreadDirectory {
    /// The snapshot handle this directory's one pass runs over.
    pub closed spec fn spec_handle(self) -> u64 {
        self.iter.spec_handle()
    }

    /// The owning process id rows are filtered to.
    pub closed spec fn spec_scope(self) -> u32 {
        self.scope
    }

    /// Whether the pass has ended.
    pub closed spec fn finished(self) -> bool {
        self.iter.finished()
    }

    /// The rows handed in so far.
    pub closed spec fn offered(self) -> Seq<ThreadRow> {
        self.offered@
    }

    /// The records surfaced so far.
    pub closed spec fn yielded(self) -> Seq<ThreadInfo> {
        self.yielded@
    }

    /// The handle is valid and the surfaced records are exactly the
    /// scope-owned rows among those handed in, in order.
    pub closed spec fn wf(self) -> bool {
        &&& self.iter.wf()
        &&& self.yielded@ == thread_matches(self.scope, self.offered@)
    }

    /// Starts one pass over an already-created thread snapshot, scoped to
    /// the threads owned by process `scope`.
    pub fn new(snapshot_handle: u64, scope: u32) -> (d: ThreadDirectory)
        requires
            snapshot_handle != crate::INVALID_HANDLE,
        ensures
            d.wf(),
            d.spec_handle() == snapshot_handle,
            d.spec_scope() == scope,
            !d.finished(),
            d.offered() == Seq::<ThreadRow>::empty(),
            d.yielded() == Seq::<ThreadInfo>::empty(),
    {
        ThreadDirectory {
            iter: SnapshotIterator::new(snapshot_handle),
            scope,
            offered: Ghost(Seq::empty()),
            yielded: Ghost(Seq::empty()),
        }
    }

    /// Which native fetch the caller must perform next, if any.
    pub fn pending_fetch(&self) -> (k: FetchKind)
        ensures
            k == FetchKind::Exhausted <==> self.finished(),
    {
        self.iter.pending_fetch()
    }

    /// Hands in the outcome of one fetch. A row owned by the scoped process
    /// is surfaced as an independent record; any other row is skipped and
    /// the pass goes on; a failed fetch ends the pass for good.
    pub fn offer(&mut self, fetched: bool, row: &ThreadRow) -> (step: ThreadStep)
        requires
            old(self).wf(),
        ensures
            final(self).wf(),
            final(self).spec_handle() == old(self).spec_handle(),
            final(self).spec_scope() == old(self).spec_scope(),
            old(self).finished() ==> step == ThreadStep::End && *final(self) == *old(self),
            !old(self).finished() && !fetched ==> {
                &&& step == ThreadStep::End
                &&& final(self).finished()
                &&& final(self).offered() == old(self).offered()
                &&& final(self).yielded() == old(self).yielded()
            },
            !old(self).finished() && fetched ==> {
                &&& !final(self).finished()
                &&& final(self).offered() == old(self).offered().push(*row)
                &&& final(self).yielded() == thread_matches(
                    old(self).spec_scope(),
                    final(self).offered(),
                )
                &&& (row.owner_pid == old(self).spec_scope() ==> step == ThreadStep::Yielded(
                    ThreadInfo { owning_pid: row.owner_pid, tid: row.tid },
                ))
                &&& (row.owner_pid != old(self).spec_scope() ==> step == ThreadStep::Skipped)
            },
    {
        if !self.iter.advance(fetched) {
            return ThreadStep::End;
        }
        proof {
            self.offered@ = self.offered@.push(*row);
            assert(self.offered@.drop_last() =~= old(self).offered@);
        }
        if row.owner_pid == self.scope {
            let info = ThreadInfo { owning_pid: row.owner_pid, tid: row.tid };
            proof {
                self.yielded@ = self.yielded@.push(info);
            }
            ThreadStep::Yielded(info)
        } else {
            ThreadStep::Skipped
        }
    }

    /// Surrenders the snapshot handle for release; consumes the directory.
    pub fn release(self) -> (h: u64)
        ensures
            h == self.spec_handle(),
    {
        self.iter.release()
    }
}

/// Per-process module enumeration: every row becomes a record.
pub struct ModuleDirectory {
    iter: SnapshotIterator,
}

impl ModuleDirectory {
    /// The snapshot handle this directory's one pass runs over.
    pub closed spec fn spec_handle(self) -> u64 {
        self.iter.spec_handle()
    }

    /// Whether the pass has ended.
    pub closed spec fn finished(self) -> bool {
        self.iter.finished()
    }

    /// The owned handle is never the invalid sentinel.
    pub closed spec fn wf(self) -> bool {
        self.iter.wf()
    }

    /// Starts one pass over an already-created module snapshot.
    pub fn new(snapshot_handle: u64) -> (d: ModuleDirectory)
        requires
            snapshot_handle != crate::INVALID_HANDLE,
        ensures
            d.wf(),
            d.spec_handle() == snapshot_handle,
            !d.finished(),
    {
        ModuleDirectory { iter: SnapshotIterator::new(snapshot_handle) }
    }

    /// Which native fetch the caller must perform next, if any.
    pub fn pending_fetch(&self) -> (k: FetchKind)
        ensures
            k == FetchKind::Exhausted <==> self.finished(),
    {
        self.iter.pending_fetch()
    }

    /// Hands in the outcome of one fetch. A fetched row is decoded into an
    /// independent [`ModuleInfo`]; a failed fetch ends the pass for good.
    pub fn accept(&mut self, fetched: bool, row: &ModuleRow) -> (r: Option<ModuleInfo>)
        ensures
            final(self).spec_handle() == old(self).spec_handle(),
            final(self).wf() == old(self).wf(),
            old(self).finished() ==> r is None && final(self).finished(),
            !old(self).finished() && !fetched ==> r is None && final(self).finished(),
            !old(self).finished() && fetched ==> {
                &&& !final(self).finished()
                &&& r matches Some(info) && info.name@ == row.name@ && info.base_address
                    == row.base_address && info.size == row.size
            },
    {
        if self.iter.advance(fetched) {
            Some(
                ModuleInfo {
                    name: row.name.clone(),
                    base_address: row.base_address,
                    size: row.size,
                },
            )
        } else {
            None
        }
    }

    /// Surrenders the snapshot handle for release; consumes the directory.
    pub fn release(self) -> (h: u64)
        ensures
            h == self.spec_handle(),
    {
        self.iter.release()
    }
}

} // verus!

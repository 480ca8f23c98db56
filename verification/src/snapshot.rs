//! Single-pass iteration over one snapshot handle.
//!
//! A snapshot is enumerated through a first/next protocol: the first fetch
//! uses one native operation, every later fetch another. The iterator owns
//! the snapshot handle exclusively; surrendering it (`release`) consumes the
//! iterator, so the handle can be given up at most once, on any exit path.
//! The operating-system fetches themselves are performed by the caller; the
//! iterator only decides which fetch is due and records its outcome.

use crate::INVALID_HANDLE;
use vstd::prelude::*;

verus! {

/// Which native fetch operation the iterator expects next.
#[derive(Clone, Copy, Debug, PartialEq, Eq, Structural)]
pub enum FetchKind {
    /// No row has been requested yet: the "fetch first" operation is due.
    First,
    /// At least one row was requested: the "fetch next" operation is due.
    Next,
    /// The sequence has ended; no fetch must be performed any more.
    Exhausted,
}

/// Iteration state for one snapshot handle.
pub struct SnapshotIterator {
    handle: u64,
    started: bool,
    finished: bool,
}

impl SnapshotIterator {
    /// The snapshot handle this iterator owns.
    pub closed spec fn spec_handle(self) -> u64 {
        self.handle
    }

    /// Whether a fetch has been recorded yet (first versus next).
    pub closed spec fn started(self) -> bool {
        self.started
    }

    /// Whether the sequence has ended; once true it stays true.
    pub closed spec fn finished(self) -> bool {
        self.finished
    }

    /// The owned handle is never the invalid sentinel.
    pub closed spec fn wf(self) -> bool {
        self.handle != INVALID_HANDLE
    }

    /// Wraps an already-created snapshot handle. Handing the invalid
    /// sentinel here is a caller bug, ruled out up front.
    pub fn new(handle: u64) -> (it: SnapshotIterator)
        requires
            handle != INVALID_HANDLE,
        ensures
            it.wf(),
            it.spec_handle() == handle,
            !it.started(),
            !it.finished(),
    {
        SnapshotIterator { handle, started: false, finished: false }
    }

    /// Which fetch operation the caller must perform before the next
    /// `advance`, if any.
    pub fn pending_fetch(&self) -> (k: FetchKind)
        ensures
            k == (if self.finished() {
                FetchKind::Exhausted
            } else if self.started() {
                FetchKind::Next
            } else {
                FetchKind::First
            }),
    {
        if self.finished {
            FetchKind::Exhausted
        } else if self.started {
            FetchKind::Next
        } else {
            FetchKind::First
        }
    }

    /// Records the outcome of the fetch the caller performed. Returns
    /// whether a new row is available. Once the sequence has ended, every
    /// further call keeps returning "no more rows" and changes nothing,
    /// whatever outcome is handed in.
    pub fn advance(&mut self, fetch_succeeded: bool) -> (more: bool)
        ensures
            final(self).spec_handle() == old(self).spec_handle(),
            final(self).wf() == old(self).wf(),
            old(self).finished() ==> !more && *final(self) == *old(self),
            !old(self).finished() ==> {
                &&& more == fetch_succeeded
                &&& final(self).started()
                &&& final(self).finished() == !fetch_succeeded
            },
    {
        if self.finished {
            return false;
        }
        self.started = true;
        if !fetch_succeeded {
            self.finished = true;
        }
        fetch_succeeded
    }

    /// Surrenders the snapshot handle so the caller can release the native
    /// resource. Consumes the iterator: the handle can be surrendered only
    /// once, however the enumeration ended.
    pub fn release(self) -> (h: u64)
        ensures
            h == self.spec_handle(),
    {
        self.handle
    }
}

} // verus!

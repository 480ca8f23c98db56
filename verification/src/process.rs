//! An opened process handle and the operations gated on it.
//!
//! A [`Process`] owns an opened native handle to one target process; its
//! validity is established at construction and is a precondition of every
//! operation. Opening, querying and writing are native calls performed by
//! the surrounding application; their outcomes are handed in here as plain
//! values, and every decision taken on them — failure translation, the
//! first-match name lookup, module-list assembly, the zero sentinels of
//! symbol resolution and memory writes — is verified.

use crate::directory::{ModuleInfo, ProcessInfo};
use crate::modules::{assemble_records, assembled_modules, ModuleRecord};
use crate::text::{contains_seq, str_contains};
use crate::INVALID_HANDLE;
use vstd::prelude::*;

verus! {

/// A failure surfaced to the caller.
#[derive(Clone, Copy, Debug, PartialEq, Eq, Structural)]
pub enum OsError {
    /// No process matched a by-name lookup.
    NotFound,
    /// A native operation failed; carries the platform error code, which an
    /// external formatting service can turn into text.
    OsOperationFailed(u32),
}

/// The pid of the first directory entry whose name contains `name`, in
/// enumeration order; `None` when no entry matches.
pub open spec fn first_match(directory: Seq<ProcessInfo>, name: Seq<char>) -> Option<u32>
    decreases directory.len(),
{
    if directory.len() == 0 {
        None
    } else if contains_seq(directory[0].name@, name) {
        Some(directory[0].pid)
    } else {
        first_match(directory.drop_first(), name)
    }
}

/// An opened handle to one target process. The handle is exclusively owned
/// by this value and stays valid for the value's lifetime.
#[derive(Debug)]
pub struct Process {
    pid: u32,
    handle: u64,
}

impl Process {
    /// The target's process id.
    pub closed spec fn spec_pid(self) -> u32 {
        self.pid
    }

    /// The owned native handle.
    pub closed spec fn spec_handle(self) -> u64 {
        self.handle
    }

    /// The handle is open and the pid is the one the handle reported.
    pub closed spec fn wf(self) -> bool {
        self.handle != INVALID_HANDLE && self.pid != 0
    }

    /// The target's process id.
    pub fn pid(&self) -> (p: u32)
        ensures
            p == self.spec_pid(),
    {
        self.pid
    }

    /// The owned native handle, for the caller's native calls.
    pub fn handle(&self) -> (h: u64)
        ensures
            h == self.spec_handle(),
    {
        self.handle
    }

    /// Adopts an already-open handle, given the pid the native pid query
    /// reported for it: a zero pid means the query failed and adoption is
    /// refused with the platform error code. The companion symbol session
    /// the caller initializes for the handle is best-effort; its outcome
    /// does not gate adoption.
    pub fn from_handle(handle: u64, queried_pid: u32, last_error: u32) -> (r: Result<
        Process,
        OsError,
    >)
        requires
            handle != INVALID_HANDLE,
        ensures
            queried_pid == 0 ==> r == Err::<Process, OsError>(
                OsError::OsOperationFailed(last_error),
            ),
            queried_pid != 0 ==> (r matches Ok(p) && p.wf() && p.spec_pid() == queried_pid
                && p.spec_handle() == handle),
    {
        if queried_pid == 0 {
            Err(OsError::OsOperationFailed(last_error))
        } else {
            Ok(Process { pid: queried_pid, handle })
        }
    }

    /// Decides on the outcome of opening a process by pid: an invalid
    /// handle is the open failure, with the platform error code; otherwise
    /// the handle is adopted as in [`Process::from_handle`].
    pub fn from_pid(opened_handle: u64, queried_pid: u32, last_error: u32) -> (r: Result<
        Process,
        OsError,
    >)
        ensures
            opened_handle == INVALID_HANDLE ==> r == Err::<Process, OsError>(
                OsError::OsOperationFailed(last_error),
            ),
            opened_handle != INVALID_HANDLE && queried_pid == 0 ==> r == Err::<Process, OsError>(
                OsError::OsOperationFailed(last_error),
            ),
            opened_handle != INVALID_HANDLE && queried_pid != 0 ==> (r matches Ok(p) && p.wf()
                && p.spec_pid() == queried_pid && p.spec_handle() == opened_handle),
    {
        if opened_handle == INVALID_HANDLE {
            Err(OsError::OsOperationFailed(last_error))
        } else {
            Self::from_handle(opened_handle, queried_pid, last_error)
        }
    }

    /// Picks the process to open for a by-name lookup: the pid of the first
    /// directory entry whose name contains `name` as a case-sensitive
    /// substring, in enumeration order. When no entry matches, the lookup
    /// fails with [`OsError::NotFound`].
    pub fn from_name(name: &str, directory: &Vec<ProcessInfo>) -> (r: Result<u32, OsError>)
        ensures
            r == (match first_match(directory@, name@) {
                Some(pid) => Ok::<u32, OsError>(pid),
                None => Err::<u32, OsError>(OsError::NotFound),
            }),
    {
        let n = directory.len();
        let mut i: usize = 0;
        proof {
            assert(directory@.skip(0) =~= directory@);
        }
        while i < n
            invariant
                n == directory@.len(),
                i <= n,
                first_match(directory@, name@) == first_match(
                    directory@.skip(i as int),
                    name@,
                ),
            decreases n - i,
        {
            let entry = &directory[i];
            proof {
                assert(directory@.skip(i as int)[0] == directory@[i as int]);
                assert(directory@.skip(i as int).drop_first() =~= directory@.skip(i + 1));
            }
            if str_contains(entry.name.as_str(), name) {
                return Ok(entry.pid);
            }
            i += 1;
        }
        proof {
            assert(directory@.skip(n as int) =~= Seq::<ProcessInfo>::empty());
        }
        Err(OsError::NotFound)
    }

    /// Decides on the reply of the module-base-name query: a positive
    /// copied length means the decoded name is the result; a zero length
    /// means the query failed with the platform error code.
    #[allow(unused_variables)]
    pub fn get_module_name(&self, module: u64, copied_len: u32, name: String, last_error: u32) -> (r:
        Result<String, OsError>)
        requires
            self.wf(),
        ensures
            copied_len == 0 ==> r == Err::<String, OsError>(
                OsError::OsOperationFailed(last_error),
            ),
            copied_len != 0 ==> (r matches Ok(s) && s@ == name@),
    {
        if copied_len > 0 {
            Ok(name)
        } else {
            Err(OsError::OsOperationFailed(last_error))
        }
    }

    /// Decides on the reply of the module-file-path query, exactly as
    /// [`Process::get_module_name`] does for the base name.
    #[allow(unused_variables)]
    pub fn get_module_path(&self, module: u64, copied_len: u32, path: String, last_error: u32) -> (r:
        Result<String, OsError>)
        requires
            self.wf(),
        ensures
            copied_len == 0 ==> r == Err::<String, OsError>(
                OsError::OsOperationFailed(last_error),
            ),
            copied_len != 0 ==> (r matches Ok(s) && s@ == path@),
    {
        if copied_len > 0 {
            Ok(path)
        } else {
            Err(OsError::OsOperationFailed(last_error))
        }
    }

    /// Decides on the reply of the own-image-path query: on success the
    /// decoded path is the result, else the platform error code.
    pub fn image_file_name(&self, success: bool, path: String, last_error: u32) -> (r: Result<
        String,
        OsError,
    >)
        requires
            self.wf(),
        ensures
            !success ==> r == Err::<String, OsError>(OsError::OsOperationFailed(last_error)),
            success ==> (r matches Ok(s) && s@ == path@),
    {
        if success {
            Ok(path)
        } else {
            Err(OsError::OsOperationFailed(last_error))
        }
    }

    /// Assembles the module listing from the query outcome: no result when
    /// both buffer-sized attempts failed, otherwise exactly the records
    /// whose detail queries succeeded, in buffer order — possibly an empty
    /// list.
    pub fn get_modules(&self, succeeded: bool, records: &Vec<ModuleRecord>) -> (r: Option<
        Vec<ModuleInfo>,
    >)
        requires
            self.wf(),
        ensures
            !succeeded ==> r is None,
            succeeded ==> (r matches Some(v) && (v@.map_values(|m: ModuleInfo| m@))
                == assembled_modules(records@)),
    {
        if succeeded {
            Some(assemble_records(records))
        } else {
            None
        }
    }

    /// Translates the symbol-resolution reply: the resolved address when
    /// the session found the qualified name, and the zero sentinel — not an
    /// error — when it reported "not found".
    #[allow(unused_variables)]
    pub fn get_address_by_symbol(&self, symbol: &str, found: bool, address: u64) -> (r: u64)
        requires
            self.wf(),
        ensures
            r == (if found {
                address
            } else {
                0u64
            }),
    {
        if found {
            address
        } else {
            0
        }
    }

    /// Accounts for a cross-process memory write: a requested length of
    /// zero writes nothing and is not a failure; otherwise the bytes the
    /// native write reported are the result, and an outright failure is the
    /// zero sentinel — partial writes are data, not errors.
    #[allow(unused_variables)]
    pub fn write_memory(&self, address: u64, data: &[u8], success: bool, written: usize) -> (n:
        usize)
        requires
            self.wf(),
        ensures
            data@.len() == 0 ==> n == 0,
            data@.len() > 0 && success ==> n == written,
            data@.len() > 0 && !success ==> n == 0,
    {
        if data.len() == 0 {
            0
        } else if success {
            written
        } else {
            0
        }
    }
}

} // verus!

//! Process-introspection and memory-patching core.
//!
//! The library turns the native "create snapshot / fetch first / fetch next /
//! release" enumeration protocol into a safe, single-pass iteration
//! abstraction, decodes rows into domain records (processes, threads,
//! modules), and manages an opened process handle whose validity gates
//! module listing, symbol resolution and cross-process memory writes.
//!
//! Every call into the operating system is performed by the surrounding
//! application; its outcome is handed to this library as plain values, and
//! the decisions taken on those outcomes are verified here.

pub mod directory;
pub mod modules;
pub mod process;
pub mod snapshot;
pub mod text;

use vstd::prelude::*;

verus! {

/// The platform's "invalid handle" sentinel: all bits set.
pub const INVALID_HANDLE: u64 = u64::MAX;

} // verus!

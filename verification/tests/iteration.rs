use procscope::directory::{
    ModuleDirectory, ModuleRow, ProcessDirectory, ProcessRow, ThreadDirectory, ThreadRow,
    ThreadStep,
};
use procscope::snapshot::{FetchKind, SnapshotIterator};

fn process_row(pid: u32, name: &str) -> ProcessRow {
    ProcessRow { pid, name: name.to_string() }
}

#[test]
fn release_without_advance_returns_the_handle_once() {
    // Constructing an iterator and tearing it down without a single fetch
    // surrenders the owned handle, for every snapshot kind; consuming the
    // value makes a second surrender impossible.
    let it = SnapshotIterator::new(4);
    assert_eq!(it.release(), 4);

    let processes = ProcessDirectory::new(7);
    assert_eq!(processes.release(), 7);

    let threads = ThreadDirectory::new(8, 5);
    assert_eq!(threads.release(), 8);

    let modules = ModuleDirectory::new(9);
    assert_eq!(modules.release(), 9);
}

#[test]
fn first_then_next_fetches() {
    let mut it = SnapshotIterator::new(1);
    assert_eq!(it.pending_fetch(), FetchKind::First);
    assert!(it.advance(true));
    assert_eq!(it.pending_fetch(), FetchKind::Next);
    assert!(it.advance(true));
    assert_eq!(it.pending_fetch(), FetchKind::Next);
    assert_eq!(it.release(), 1);
}

#[test]
fn advance_after_exhaustion_keeps_saying_no_more_rows() {
    let mut it = SnapshotIterator::new(2);
    assert!(it.advance(true));
    assert!(!it.advance(false));
    assert_eq!(it.pending_fetch(), FetchKind::Exhausted);
    // No resurrection: even a "successful fetch" outcome handed in after the
    // end changes nothing.
    assert!(!it.advance(true));
    assert!(!it.advance(false));
    assert_eq!(it.pending_fetch(), FetchKind::Exhausted);
    assert_eq!(it.release(), 2);
}

#[test]
fn process_directory_decodes_each_fetched_row() {
    let mut dir = ProcessDirectory::new(3);
    let row = process_row(10, "alpha");
    let info = dir.accept(true, &row).unwrap();
    assert_eq!(info.pid, 10);
    assert_eq!(info.name, "alpha");

    let row2 = process_row(11, "beta");
    let info2 = dir.accept(true, &row2).unwrap();
    assert_eq!(info2.pid, 11);
    assert_eq!(info2.name, "beta");

    assert!(dir.accept(false, &row2).is_none());
    assert!(dir.accept(true, &row).is_none());
    assert_eq!(dir.release(), 3);
}

#[test]
fn thread_directory_filters_to_the_scoped_owner() {
    // Rows for owning pids {A, B, A, C, A} with A = 1: exactly the three
    // A-rows come out, in their original relative order, and the mismatches
    // are skipped without ending the pass.
    let a = 1u32;
    let rows = [
        ThreadRow { owner_pid: 1, tid: 10 },
        ThreadRow { owner_pid: 2, tid: 20 },
        ThreadRow { owner_pid: 1, tid: 30 },
        ThreadRow { owner_pid: 3, tid: 40 },
        ThreadRow { owner_pid: 1, tid: 50 },
    ];
    let mut dir = ThreadDirectory::new(6, a);
    let mut yielded: Vec<u32> = Vec::new();
    for row in rows.iter() {
        match dir.offer(true, row) {
            ThreadStep::Yielded(info) => {
                assert_eq!(info.owning_pid, a);
                yielded.push(info.tid);
            }
            ThreadStep::Skipped => {}
            ThreadStep::End => panic!("the pass ended early"),
        }
    }
    assert_eq!(yielded, vec![10, 30, 50]);

    // The pass ends on a failed fetch and stays ended.
    let spare = ThreadRow { owner_pid: 1, tid: 60 };
    assert_eq!(dir.offer(false, &spare), ThreadStep::End);
    assert_eq!(dir.offer(true, &spare), ThreadStep::End);
    assert_eq!(dir.release(), 6);
}

#[test]
fn module_directory_decodes_each_fetched_row() {
    let mut dir = ModuleDirectory::new(12);
    let row = ModuleRow { name: "kernel32.dll".to_string(), base_address: 0x7ff8_0000_0000, size: 0x1000 };
    let info = dir.accept(true, &row).unwrap();
    assert_eq!(info.name, "kernel32.dll");
    assert_eq!(info.base_address, 0x7ff8_0000_0000);
    assert_eq!(info.size, 0x1000);

    assert!(dir.accept(false, &row).is_none());
    assert!(dir.accept(true, &row).is_none());
    assert_eq!(dir.release(), 12);
}

#[test]
fn thread_directory_with_no_matching_rows_yields_nothing() {
    let mut dir = ThreadDirectory::new(13, 99);
    let rows = [
        ThreadRow { owner_pid: 1, tid: 10 },
        ThreadRow { owner_pid: 2, tid: 20 },
    ];
    for row in rows.iter() {
        assert_eq!(dir.offer(true, row), ThreadStep::Skipped);
    }
    assert_eq!(dir.offer(false, &rows[0]), ThreadStep::End);
    assert_eq!(dir.release(), 13);
}

#[test]
fn a_long_pass_keeps_fetching_until_the_rows_run_out() {
    let mut it = SnapshotIterator::new(11);
    for _ in 0..1000 {
        assert!(it.advance(true));
        assert_eq!(it.pending_fetch(), FetchKind::Next);
    }
    assert!(!it.advance(false));
    assert_eq!(it.release(), 11);
}

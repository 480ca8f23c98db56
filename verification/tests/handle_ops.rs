use procscope::directory::ProcessInfo;
use procscope::process::{OsError, Process};
use procscope::text::str_contains;
use procscope::INVALID_HANDLE;

fn entry(pid: u32, name: &str) -> ProcessInfo {
    ProcessInfo { pid, name: name.to_string() }
}

#[test]
fn from_pid_adopts_a_valid_open() {
    let p = Process::from_pid(5, 42, 0).unwrap();
    assert_eq!(p.pid(), 42);
    assert_eq!(p.handle(), 5);
}

#[test]
fn from_pid_reports_the_open_failure_code() {
    let r = Process::from_pid(INVALID_HANDLE, 0, 5);
    assert_eq!(r.unwrap_err(), OsError::OsOperationFailed(5));
}

#[test]
fn from_handle_refuses_a_dead_handle() {
    // A zero pid from the pid query means the handle is not live.
    let r = Process::from_handle(7, 0, 6);
    assert_eq!(r.unwrap_err(), OsError::OsOperationFailed(6));
}

#[test]
fn from_name_picks_the_first_match_in_enumeration_order() {
    let directory = vec![entry(10, "alpha"), entry(11, "beta-helper"), entry(12, "beta")];
    // "beta" occurs in "beta-helper" first: pid 11 wins, not the exact
    // "beta" at pid 12.
    assert_eq!(Process::from_name("beta", &directory), Ok(11));
    assert_eq!(Process::from_name("alpha", &directory), Ok(10));
    assert_eq!(Process::from_name("helper", &directory), Ok(11));
}

#[test]
fn from_name_fails_with_not_found_when_nothing_matches() {
    let directory = vec![entry(10, "alpha"), entry(12, "beta")];
    assert_eq!(Process::from_name("gamma", &directory), Err(OsError::NotFound));
    let empty: Vec<ProcessInfo> = Vec::new();
    assert_eq!(Process::from_name("alpha", &empty), Err(OsError::NotFound));
}

#[test]
fn substring_matching_is_case_sensitive() {
    assert!(str_contains("beta-helper", "beta"));
    assert!(str_contains("beta", "beta"));
    assert!(str_contains("anything", ""));
    assert!(!str_contains("beta", "beta-helper"));
    assert!(!str_contains("Beta", "beta"));
    assert!(str_contains("svchost.exe", "host"));
}

#[test]
fn module_name_query_reply_is_translated() {
    let p = Process::from_pid(5, 42, 0).unwrap();
    let ok = p.get_module_name(0x1000, 8, "ntdll.dll".to_string(), 0);
    assert_eq!(ok.unwrap(), "ntdll.dll");
    let err = p.get_module_name(0x1000, 0, String::new(), 87);
    assert_eq!(err.unwrap_err(), OsError::OsOperationFailed(87));
}

#[test]
fn module_path_query_reply_is_translated() {
    let p = Process::from_pid(5, 42, 0).unwrap();
    let ok = p.get_module_path(0x1000, 20, "C:\\Windows\\System32\\ntdll.dll".to_string(), 0);
    assert_eq!(ok.unwrap(), "C:\\Windows\\System32\\ntdll.dll");
    let err = p.get_module_path(0x1000, 0, String::new(), 6);
    assert_eq!(err.unwrap_err(), OsError::OsOperationFailed(6));
}

#[test]
fn open_then_image_path_yields_the_reported_path() {
    // The round trip against a live target: the open is adopted, and a
    // successful image query surfaces the (non-empty) path it reported.
    let p = Process::from_pid(9, 4242, 0).unwrap();
    let path = p.image_file_name(true, "C:\\tools\\probe.exe".to_string(), 0).unwrap();
    assert!(!path.is_empty());
    assert_eq!(path, "C:\\tools\\probe.exe");
    let err = p.image_file_name(false, String::new(), 5);
    assert_eq!(err.unwrap_err(), OsError::OsOperationFailed(5));
}

#[test]
fn symbol_not_found_is_the_zero_sentinel_not_an_error() {
    let p = Process::from_pid(5, 42, 0).unwrap();
    assert_eq!(p.get_address_by_symbol("kernel32!CreateFileA", false, 0xdead), 0);
    assert_eq!(p.get_address_by_symbol("kernel32!CreateFileA", true, 0x7ff8_1234), 0x7ff8_1234);
}

#[test]
fn zero_length_write_writes_nothing_and_does_not_fail() {
    let p = Process::from_pid(5, 42, 0).unwrap();
    let none: [u8; 0] = [];
    assert_eq!(p.write_memory(0x4000, &none, true, 0), 0);
    assert_eq!(p.write_memory(0x4000, &none, false, 0), 0);
}

#[test]
fn write_accounting_surfaces_partial_writes_as_data() {
    let p = Process::from_pid(5, 42, 0).unwrap();
    let data = [1u8, 2, 3, 4];
    assert_eq!(p.write_memory(0x4000, &data, true, 4), 4);
    assert_eq!(p.write_memory(0x4000, &data, true, 2), 2);
    assert_eq!(p.write_memory(0x4000, &data, false, 0), 0);
}

#[test]
fn substring_matching_handles_multibyte_names() {
    assert!(str_contains("héllo wörld", "wör"));
    assert!(str_contains("héllo", "héllo"));
    assert!(!str_contains("héllo", "hello"));
}

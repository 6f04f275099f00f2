//! Probes against the real OS process table, through the sysinfo-backed
//! functions of the library.

use rime_tray::guard::{check_instance, InstanceStatus};
use rime_tray::inspector::{is_running, kill_all, process_name_snapshot};

const ABSENT: &str = "no_such_process_zzz_rime_tray.exe";

#[test]
fn absent_process_is_not_running() {
    assert!(!is_running(ABSENT));
}

#[test]
fn killing_an_absent_process_reports_zero_twice() {
    assert_eq!(kill_all(ABSENT), 0);
    assert_eq!(kill_all(ABSENT), 0);
}

#[test]
fn snapshot_is_consistent_with_is_running() {
    let names = process_name_snapshot();
    // Whatever the table holds, the absent name is in neither view.
    assert!(!names.iter().any(|n| n == ABSENT));
}

#[test]
fn absent_instance_name_is_sole_instance() {
    assert_eq!(check_instance(ABSENT), InstanceStatus::SoleInstance);
}

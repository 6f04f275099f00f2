use rime_tray::guard::{check_instance_in, InstanceStatus};

fn table(names: &[&str]) -> Vec<String> {
    names.iter().map(|n| n.to_string()).collect()
}

#[test]
fn two_entries_with_own_name_report_already_running() {
    let t = table(&["rime_tray.exe", "other", "rime_tray.exe"]);
    assert_eq!(
        check_instance_in(&t, "rime_tray.exe"),
        InstanceStatus::AlreadyRunning
    );
}

#[test]
fn exactly_one_entry_proceeds() {
    let t = table(&["rime_tray.exe", "other"]);
    assert_eq!(
        check_instance_in(&t, "rime_tray.exe"),
        InstanceStatus::SoleInstance
    );
}

#[test]
fn zero_entries_proceed() {
    let t = table(&["other"]);
    assert_eq!(
        check_instance_in(&t, "rime_tray.exe"),
        InstanceStatus::SoleInstance
    );
}

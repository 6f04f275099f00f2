//! Single-instance guard: on startup, the controller counts the processes
//! that carry its own executable name and proceeds only when it is the sole
//! such process. This is a best-effort guard: the window between the check
//! and the creation of the tray is accepted.

use vstd::prelude::*;
use crate::inspector::{count_matching, match_count, names_view, process_name_snapshot};

verus! {

/// The guard's verdict at startup.
#[derive(PartialEq, Eq, Structural, Clone, Copy, Debug)]
pub enum InstanceStatus {
    /// Another instance besides the one performing the check is present:
    /// the caller must terminate without starting the tray. A controlled
    /// early exit, not an error.
    AlreadyRunning,
    /// At most this instance carries the name: startup proceeds.
    SoleInstance,
}

/// What the guard decides on a given process table: `AlreadyRunning` exactly
/// when more than one process carries the current executable's name.
pub open spec fn guard_spec(table: Seq<Seq<char>>, exe_name: Seq<char>) -> InstanceStatus {
    if match_count(table, exe_name) > 1 {
        InstanceStatus::AlreadyRunning
    } else {
        InstanceStatus::SoleInstance
    }
}

/// Decides, against the given process table, whether a process named
/// `exe_name` besides the one performing the check is present.
pub fn check_instance_in(table: &Vec<String>, exe_name: &str) -> (status: InstanceStatus)
    ensures
        status == guard_spec(names_view(table@), exe_name@),
        status == InstanceStatus::AlreadyRunning <==> match_count(names_view(table@), exe_name@)
            > 1,
{
    if count_matching(table, exe_name) > 1 {
        InstanceStatus::AlreadyRunning
    } else {
        InstanceStatus::SoleInstance
    }
}

/// Snapshots the OS process table and decides whether another instance with
/// the given executable name is already running. The decision against the
/// snapshot is made by `check_instance_in`.
pub fn check_instance(exe_name: &str) -> InstanceStatus {
    let names = process_name_snapshot();
    check_instance_in(&names, exe_name)
}

} // verus!

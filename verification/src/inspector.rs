//! Process inspection: exact-name matching against a snapshot of the OS
//! process table, and termination of every matching process.
//!
//! The matching and counting logic is verified against a mathematical model
//! of the table (a sequence of process names); the OS calls themselves stand
//! behind small trusted wrappers.

use vstd::prelude::*;

verus! {

/// Number of entries of `table` equal to `name`.
pub open spec fn match_count(table: Seq<Seq<char>>, name: Seq<char>) -> nat
    decreases table.len(),
{
    if table.len() == 0 {
        0
    } else {
        match_count(table.drop_last(), name) + if table.last() == name {
            1nat
        } else {
            0nat
        }
    }
}

/// The table after every entry equal to `name` has been removed; the order
/// of the remaining entries is kept.
pub open spec fn survivors(table: Seq<Seq<char>>, name: Seq<char>) -> Seq<Seq<char>>
    decreases table.len(),
{
    if table.len() == 0 {
        Seq::empty()
    } else if table.last() == name {
        survivors(table.drop_last(), name)
    } else {
        survivors(table.drop_last(), name).push(table.last())
    }
}

/// The sequence of views of a table of process names.
pub open spec fn names_view(table: Seq<String>) -> Seq<Seq<char>> {
    table.map_values(|s: String| s@)
}

/// Counts the processes in `table` whose name is exactly `name`.
pub fn count_matching(table: &Vec<String>, name: &str) -> (n: usize)
    ensures
        n == match_count(names_view(table@), name@),
{
    let target: String = name.to_owned();
    let mut n: usize = 0;
    let mut i: usize = 0;
    while i < table.len()
        invariant
            i <= table@.len(),
            n <= i,
            target@ == name@,
            n == match_count(names_view(table@).take(i as int), name@),
        decreases table@.len() - i,
    {
        proof {
            assert(names_view(table@).take(i + 1).drop_last() =~= names_view(table@).take(
                i as int,
            ));
            assert(names_view(table@).take(i + 1).last() == table@[i as int]@);
        }
        if table[i] == target {
            n = n + 1;
        }
        i = i + 1;
    }
    proof {
        assert(names_view(table@).take(table@.len() as int) =~= names_view(table@));
    }
    n
}

/// Whether at least one process named exactly `name` is present in `table`.
///
/// The result is `false` when zero matching processes exist and `true` when
/// one or more exist; the table itself is not touched.
pub fn is_running_in(table: &Vec<String>, name: &str) -> (running: bool)
    ensures
        running == (match_count(names_view(table@), name@) > 0),
{
    count_matching(table, name) > 0
}

/// Removes every entry of `table` named exactly `name`, as termination of
/// the matching processes would, and reports how many were removed.
///
/// No error arises when zero entries match: that is a valid
/// "already stopped" result with a count of zero.
pub fn kill_all_in(table: &mut Vec<String>, name: &str) -> (killed: usize)
    ensures
        killed == match_count(names_view(old(table)@), name@),
        names_view(final(table)@) == survivors(names_view(old(table)@), name@),
{
    let target: String = name.to_owned();
    let mut kept: Vec<String> = Vec::new();
    let mut killed: usize = 0;
    let mut i: usize = 0;
    while i < table.len()
        invariant
            i <= table@.len(),
            killed <= i,
            target@ == name@,
            killed == match_count(names_view(table@).take(i as int), name@),
            names_view(kept@) == survivors(names_view(table@).take(i as int), name@),
        decreases table@.len() - i,
    {
        proof {
            assert(names_view(table@).take(i + 1).drop_last() =~= names_view(table@).take(
                i as int,
            ));
            assert(names_view(table@).take(i + 1).last() == table@[i as int]@);
        }
        if table[i] == target {
            killed = killed + 1;
        } else {
            let entry = table[i].clone();
            kept.push(entry);
            proof {
                assert(names_view(kept@).drop_last() =~= names_view(kept@.drop_last()));
            }
        }
        i = i + 1;
    }
    proof {
        assert(names_view(table@).take(table@.len() as int) =~= names_view(table@));
    }
    *table = kept;
    killed
}

/// Killing every process of a given name is idempotent: once every matching
/// entry is gone, a second pass finds zero matches and removes nothing.
pub proof fn lemma_kill_all_idempotent(table: Seq<Seq<char>>, name: Seq<char>)
    ensures
        match_count(survivors(table, name), name) == 0,
        survivors(survivors(table, name), name) == survivors(table, name),
    decreases table.len(),
{
    if table.len() == 0 {
    } else {
        lemma_kill_all_idempotent(table.drop_last(), name);
        if table.last() != name {
            let prev = survivors(table.drop_last(), name);
            assert(prev.push(table.last()).drop_last() =~= prev);
            assert(survivors(survivors(table, name), name) =~= survivors(table, name));
        }
    }
}

/// Declares sysinfo::System, the handle to one snapshot of the OS process
/// table, so that the wrappers below can pass it around. It is opaque here.
#[verifier::external_type_specification]
#[verifier::external_body]
pub struct ExSystem(sysinfo::System);

/// The views of the names carried by a snapshot of process entries.
pub open spec fn entry_names(entries: Seq<(u32, String)>) -> Seq<Seq<char>> {
    entries.map_values(|e: (u32, String)| e.1@)
}

/// Relies on sysinfo::System::new_with_specifics, refreshing processes only:
/// takes a fresh snapshot of the OS process table. Two calls may observe
/// different tables, so nothing is promised of the result.
#[verifier::external_body]
fn process_system() -> sysinfo::System {
    sysinfo::System::new_with_specifics(
        sysinfo::RefreshKind::nothing().with_processes(sysinfo::ProcessRefreshKind::everything()),
    )
}

/// Relies on sysinfo::System::processes, sysinfo::Process::name and
/// sysinfo::Pid::as_u32: hands out the id and name of every process in the
/// snapshot, converted to plain values. The table is whatever the OS
/// reported, so nothing is promised of the result.
#[verifier::external_body]
fn process_entries(sys: &sysinfo::System) -> (entries: Vec<(u32, String)>) {
    sys.processes().iter().map(
        |(pid, p)| ((*pid).as_u32(), p.name().to_string_lossy().into_owned()),
    ).collect()
}

/// Relies on sysinfo::Process::kill (reached through sysinfo::System::process
/// and sysinfo::Pid::from_u32): sends the termination signal to the process
/// with the given id. The signal may fail to be sent or the process may
/// already be gone, so nothing is promised of the result.
#[verifier::external_body]
fn kill_process(sys: &sysinfo::System, pid: u32) -> (sent: bool) {
    match sys.process(sysinfo::Pid::from_u32(pid)) {
        Option::Some(p) => p.kill(),
        Option::None => false,
    }
}

/// The ids of the entries whose name is exactly `name`, in table order.
pub open spec fn matching_pids_spec(entries: Seq<(u32, String)>, name: Seq<char>) -> Seq<u32>
    decreases entries.len(),
{
    if entries.len() == 0 {
        Seq::empty()
    } else if entries.last().1@ == name {
        matching_pids_spec(entries.drop_last(), name).push(entries.last().0)
    } else {
        matching_pids_spec(entries.drop_last(), name)
    }
}

/// Selects, in order, the id of every entry named exactly `name`.
pub fn matching_pids(entries: &Vec<(u32, String)>, name: &str) -> (pids: Vec<u32>)
    ensures
        pids@ == matching_pids_spec(entries@, name@),
        pids@.len() == match_count(entry_names(entries@), name@),
{
    let target: String = name.to_owned();
    let mut pids: Vec<u32> = Vec::new();
    let mut i: usize = 0;
    while i < entries.len()
        invariant
            i <= entries@.len(),
            target@ == name@,
            pids@ == matching_pids_spec(entries@.take(i as int), name@),
            pids@.len() == match_count(entry_names(entries@).take(i as int), name@),
        decreases entries@.len() - i,
    {
        proof {
            assert(entries@.take(i + 1).drop_last() =~= entries@.take(i as int));
            assert(entry_names(entries@).take(i + 1).drop_last() =~= entry_names(entries@).take(
                i as int,
            ));
            assert(entry_names(entries@).take(i + 1).last() == entries@[i as int].1@);
        }
        if entries[i].1 == target {
            let pid = entries[i].0;
            pids.push(pid);
        }
        i = i + 1;
    }
    proof {
        assert(entries@.take(entries@.len() as int) =~= entries@);
        assert(entry_names(entries@).take(entries@.len() as int) =~= entry_names(entries@));
    }
    pids
}

/// The names carried by a snapshot of process entries, in table order.
pub fn entry_name_list(entries: &Vec<(u32, String)>) -> (names: Vec<String>)
    ensures
        names_view(names@) == entry_names(entries@),
{
    let mut names: Vec<String> = Vec::new();
    let mut i: usize = 0;
    while i < entries.len()
        invariant
            i <= entries@.len(),
            names_view(names@) == entry_names(entries@).take(i as int),
        decreases entries@.len() - i,
    {
        let ghost prev = names@;
        let entry = entries[i].1.clone();
        names.push(entry);
        proof {
            assert(names_view(names@) =~= names_view(prev).push(entries@[i as int].1@));
            assert(entry_names(entries@).take(i + 1) =~= entry_names(entries@).take(
                i as int,
            ).push(entries@[i as int].1@));
        }
        i = i + 1;
    }
    proof {
        assert(entry_names(entries@).take(entries@.len() as int) =~= entry_names(entries@));
    }
    names
}

/// Takes a fresh snapshot of the OS process table and reports the names of
/// every live process. Each call re-scans; no cached copy is kept.
pub fn process_name_snapshot() -> Vec<String> {
    let sys = process_system();
    let entries = process_entries(&sys);
    entry_name_list(&entries)
}

/// Whether at least one process named exactly `name` is live at the moment
/// of the call. Each call re-scans the OS process table; the exact-name
/// matching against the snapshot is done by `is_running_in`.
pub fn is_running(name: &str) -> bool {
    let names = process_name_snapshot();
    is_running_in(&names, name)
}

/// Sends the termination signal to every live process named exactly `name`
/// and reports how many matching processes the signal was issued to. It
/// does not wait for the processes to exit: a caller that needs up-to-date
/// state must re-query afterwards. Zero matching processes is a valid
/// "already stopped" result.
pub fn kill_all(name: &str) -> usize {
    let sys = process_system();
    let entries = process_entries(&sys);
    let pids = matching_pids(&entries, name);
    let mut i: usize = 0;
    while i < pids.len()
        invariant
            i <= pids@.len(),
        decreases pids@.len() - i,
    {
        let pid = pids[i];
        kill_process(&sys, pid);
        i = i + 1;
    }
    pids.len()
}

} // verus!

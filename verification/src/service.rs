//! Service controller: builds the spawn plans for starting and redeploying
//! the managed service and terminates its server processes.
//!
//! Starting and redeploying are fire-and-forget: the caller hands the plan
//! to a detached worker that spawns the external executable, and failures
//! are observable only via logs, never via a return value. Stopping is
//! synchronous: it delegates to the process inspector's kill.

use vstd::prelude::*;
use vstd::string::StringExecFns;
use crate::config::ToolConfig;
use crate::inspector::{is_running, kill_all};

verus! {

/// Name of the server executable of the managed service.
pub open spec fn server_exe_spec() -> Seq<char> {
    "WeaselServer.exe"@
}

/// Name of the deployer executable of the managed service.
pub open spec fn deployer_exe_spec() -> Seq<char> {
    "WeaselDeployer.exe"@
}

/// Lifecycle flag handed to the server executable to (re)start it.
pub open spec fn restart_flag_spec() -> Seq<char> {
    "/restart"@
}

/// Lifecycle flag handed to the deployer executable to run a deploy.
pub open spec fn deploy_flag_spec() -> Seq<char> {
    "/deploy"@
}

/// Name of the server executable of the managed service.
pub fn server_executable_name() -> (r: &'static str)
    ensures
        r@ == server_exe_spec(),
{
    "WeaselServer.exe"
}

/// Name of the deployer executable of the managed service.
pub fn deployer_executable_name() -> (r: &'static str)
    ensures
        r@ == deployer_exe_spec(),
{
    "WeaselDeployer.exe"
}

/// The path `root/name`.
pub open spec fn joined_path(root: Seq<char>, name: Seq<char>) -> Seq<char> {
    root + "/"@ + name
}

/// Builds the path `root/name`.
pub fn join_path(root: &str, name: &str) -> (r: String)
    ensures
        r@ == joined_path(root@, name@),
{
    let mut r: String = root.to_owned();
    r.append("/");
    r.append(name);
    r
}

/// A planned spawn of an external executable: the program's path and the
/// single lifecycle flag it is invoked with. The spawn itself is performed
/// by an unverified detached worker.
pub struct SpawnPlan {
    /// Full path of the executable to spawn.
    pub program: String,
    /// The one argument handed to it.
    pub arg: String,
}

/// Where the managed service's executables stand: the configured root
/// directory and the two executable names under it.
pub struct ServiceLayout {
    /// Directory under which the executables are located.
    pub root: String,
    /// File name of the server executable.
    pub server_exe: String,
    /// File name of the deployer executable.
    pub deployer_exe: String,
}

impl ServiceLayout {
    /// Builds a layout from the given root and executable names.
    pub fn new(root: String, server_exe: String, deployer_exe: String) -> (l: Self)
        ensures
            l.root@ == root@,
            l.server_exe@ == server_exe@,
            l.deployer_exe@ == deployer_exe@,
    {
        ServiceLayout { root, server_exe, deployer_exe }
    }

    /// The layout of the managed input-method service under the configured
    /// root directory.
    pub fn from_config(cfg: &ToolConfig) -> (l: Self)
        ensures
            l.root@ == cfg.root@,
            l.server_exe@ == server_exe_spec(),
            l.deployer_exe@ == deployer_exe_spec(),
    {
        ServiceLayout {
            root: cfg.root.clone(),
            server_exe: server_executable_name().to_owned(),
            deployer_exe: deployer_executable_name().to_owned(),
        }
    }

    /// The plan that starts the service: spawn the server executable under
    /// the root directory with the restart flag.
    pub fn start_plan(&self) -> (p: SpawnPlan)
        ensures
            p.program@ == joined_path(self.root@, self.server_exe@),
            p.arg@ == restart_flag_spec(),
    {
        SpawnPlan {
            program: join_path(self.root.as_str(), self.server_exe.as_str()),
            arg: "/restart".to_owned(),
        }
    }

    /// The plan that redeploys the service: spawn the deployer executable
    /// under the root directory with the deploy flag.
    pub fn redeploy_plan(&self) -> (p: SpawnPlan)
        ensures
            p.program@ == joined_path(self.root@, self.deployer_exe@),
            p.arg@ == deploy_flag_spec(),
    {
        SpawnPlan {
            program: join_path(self.root.as_str(), self.deployer_exe.as_str()),
            arg: "/deploy".to_owned(),
        }
    }

    /// Stops the service: sends the termination signal to every live process
    /// named like the server executable, without waiting for exit, and
    /// reports how many were signalled.
    pub fn stop(&self) -> usize {
        kill_all(self.server_exe.as_str())
    }
}

/// The plan that starts the managed service under the configured root.
pub fn rime_start_service(cfg: &ToolConfig) -> (p: SpawnPlan)
    ensures
        p.program@ == joined_path(cfg.root@, server_exe_spec()),
        p.arg@ == restart_flag_spec(),
{
    ServiceLayout::from_config(cfg).start_plan()
}

/// The plan that redeploys the managed service under the configured root.
pub fn rime_redeploy(cfg: &ToolConfig) -> (p: SpawnPlan)
    ensures
        p.program@ == joined_path(cfg.root@, deployer_exe_spec()),
        p.arg@ == deploy_flag_spec(),
{
    ServiceLayout::from_config(cfg).redeploy_plan()
}

/// Stops the managed service: terminates every live server process and
/// reports how many were signalled.
pub fn rime_stop_service() -> usize {
    kill_all(server_executable_name())
}

/// Whether the managed service's server process is live at the moment of
/// the call. Derived, never cached: every query re-scans the OS process
/// table, so the answer is fresh at the cost of repeated OS calls.
pub fn get_service_status() -> bool {
    is_running(server_executable_name())
}

/// What a toggle of the service checkbox asks the controller to do.
#[derive(PartialEq, Eq, Structural, Clone, Copy, Debug)]
pub enum ServiceCommand {
    /// Spawn the server executable on a detached worker.
    Start,
    /// Terminate every live server process, inline.
    Stop,
    /// Touch nothing.
    DoNothing,
}

/// Maps the checked state the box shows once the user's click has flipped
/// it — the state being asked for — to the lifecycle operation: a box now
/// checked starts the service, a box now unchecked stops it.
pub fn toggle_service(checked: bool) -> (c: ServiceCommand)
    ensures
        c == if checked {
            ServiceCommand::Start
        } else {
            ServiceCommand::Stop
        },
{
    if checked {
        ServiceCommand::Start
    } else {
        ServiceCommand::Stop
    }
}

} // verus!

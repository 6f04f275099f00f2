use rime_tray::config::{default_rime_root, ToolConfig};
use rime_tray::service::{
    deployer_executable_name, join_path, rime_redeploy, rime_start_service,
    server_executable_name, toggle_service, ServiceCommand, ServiceLayout,
};

#[test]
fn start_plan_builds_server_path_with_restart_flag() {
    let layout = ServiceLayout::new(
        "/opt/svc".to_string(),
        "svcd".to_string(),
        "svc-deploy".to_string(),
    );
    let p = layout.start_plan();
    assert_eq!(p.program, "/opt/svc/svcd");
    assert_eq!(p.arg, "/restart");
}

#[test]
fn redeploy_plan_builds_deployer_path_with_deploy_flag() {
    let layout = ServiceLayout::new(
        "/opt/svc".to_string(),
        "svcd".to_string(),
        "svc-deploy".to_string(),
    );
    let p = layout.redeploy_plan();
    assert_eq!(p.program, "/opt/svc/svc-deploy");
    assert_eq!(p.arg, "/deploy");
}

#[test]
fn layout_from_config_uses_the_service_executable_names() {
    let cfg = ToolConfig::new("/opt/rime".to_string());
    let layout = ServiceLayout::from_config(&cfg);
    assert_eq!(layout.root, "/opt/rime");
    assert_eq!(layout.server_exe, "WeaselServer.exe");
    assert_eq!(layout.deployer_exe, "WeaselDeployer.exe");
}

#[test]
fn start_and_redeploy_plans_from_config() {
    let cfg = ToolConfig::new("/opt/rime".to_string());
    let start = rime_start_service(&cfg);
    assert_eq!(start.program, "/opt/rime/WeaselServer.exe");
    assert_eq!(start.arg, "/restart");
    let redeploy = rime_redeploy(&cfg);
    assert_eq!(redeploy.program, "/opt/rime/WeaselDeployer.exe");
    assert_eq!(redeploy.arg, "/deploy");
}

#[test]
fn join_path_concatenates_with_a_separator() {
    assert_eq!(join_path("/a/b", "c.exe"), "/a/b/c.exe");
    assert_eq!(join_path("", "c"), "/c");
}

#[test]
fn executable_names_are_fixed() {
    assert_eq!(server_executable_name(), "WeaselServer.exe");
    assert_eq!(deployer_executable_name(), "WeaselDeployer.exe");
}

#[test]
fn toggle_maps_checked_to_start_and_unchecked_to_stop() {
    assert_eq!(toggle_service(true), ServiceCommand::Start);
    assert_eq!(toggle_service(false), ServiceCommand::Stop);
}

#[test]
fn default_root_prefers_the_installed_value() {
    assert_eq!(
        default_rime_root(Some("D:/Rime".to_string())),
        "D:/Rime"
    );
}

#[test]
fn default_root_falls_back_when_nothing_is_installed() {
    assert_eq!(
        default_rime_root(None),
        "C:/Program Files (x86)/Rime/weasel-0.15.0"
    );
    let cfg = ToolConfig::default();
    assert_eq!(cfg.root, "C:/Program Files (x86)/Rime/weasel-0.15.0");
}

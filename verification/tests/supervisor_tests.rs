use retro_shell::supervisor::{
    merged_pythonpath, script_path, CommandPlan, PythonServer, ShutdownAction, StartAction,
    StartRequest,
};

fn request(project_root: Option<&str>, script_exists: bool, windows: bool) -> StartRequest {
    StartRequest {
        interpreter: String::from("python3"),
        host: String::from("127.0.0.1"),
        port: 5000,
        project_root: project_root.map(String::from),
        script_exists,
        existing_pythonpath: String::new(),
        windows,
        debug: false,
    }
}

#[test]
fn start_twice_spawns_once() {
    let mut server = PythonServer::new();
    assert!(!server.is_running());
    assert_eq!(server.start(), StartAction::Spawn);
    server.on_spawn_result(true);
    assert!(server.is_running());
    assert_eq!(server.start(), StartAction::AlreadyRunning);
    assert!(server.is_running());
}

#[test]
fn failed_spawn_leaves_supervisor_stopped() {
    let mut server = PythonServer::new();
    assert_eq!(server.start(), StartAction::Spawn);
    server.on_spawn_result(false);
    assert!(!server.is_running());
    assert_eq!(server.start(), StartAction::Spawn);
}

#[test]
fn shutdown_without_start_is_noop() {
    let mut server = PythonServer::new();
    assert_eq!(server.shutdown(), ShutdownAction::Nothing);
    assert!(!server.is_running());
}

#[test]
fn shutdown_twice_is_idempotent() {
    let mut server = PythonServer::new();
    assert_eq!(server.start(), StartAction::Spawn);
    server.on_spawn_result(true);
    assert_eq!(server.shutdown(), ShutdownAction::TerminateAndWait);
    assert!(!server.is_running());
    assert_eq!(server.shutdown(), ShutdownAction::Nothing);
    assert!(!server.is_running());
}

#[test]
fn script_mode_invokes_the_script_directly() {
    let plan = CommandPlan::build(&request(Some("/proj"), true, false));
    assert_eq!(plan.program, "python3");
    assert_eq!(
        plan.args,
        vec![
            "/proj/retro/web_gui.py",
            "--host",
            "127.0.0.1",
            "--port",
            "5000",
            "--no-browser"
        ]
    );
    assert_eq!(plan.current_dir.as_deref(), Some("/proj"));
    assert_eq!(plan.pythonpath.as_deref(), Some("/proj"));
    assert!(plan.no_browser_flag);
    assert!(!plan.inherit_stdio);
}

#[test]
fn module_mode_is_the_fallback_when_no_script_exists() {
    let plan = CommandPlan::build(&request(Some("/proj"), false, false));
    assert_eq!(
        plan.args,
        vec![
            "-m",
            "retro.web_gui",
            "--host",
            "127.0.0.1",
            "--port",
            "5000",
            "--no-browser"
        ]
    );
}

#[test]
fn no_project_root_means_module_mode_without_cwd() {
    let plan = CommandPlan::build(&request(None, false, false));
    assert_eq!(plan.args[0], "-m");
    assert_eq!(plan.args[1], "retro.web_gui");
    assert_eq!(plan.current_dir, None);
    assert_eq!(plan.pythonpath, None);
}

#[test]
fn plan_carries_custom_host_port_and_debug() {
    let mut req = request(None, false, false);
    req.host = String::from("0.0.0.0");
    req.port = 65535;
    req.debug = true;
    let plan = CommandPlan::build(&req);
    assert_eq!(plan.args[3], "0.0.0.0");
    assert_eq!(plan.args[5], "65535");
    assert!(plan.inherit_stdio);
}

#[test]
fn pythonpath_keeps_the_existing_value() {
    let mut req = request(Some("/proj"), true, false);
    req.existing_pythonpath = String::from("/a:/b");
    let plan = CommandPlan::build(&req);
    assert_eq!(plan.pythonpath.as_deref(), Some("/proj:/a:/b"));
    assert_eq!(merged_pythonpath("/proj", "", false), "/proj");
    assert_eq!(merged_pythonpath("/proj", "/a", false), "/proj:/a");
    assert_eq!(merged_pythonpath("C:\\proj", "D:\\x", true), "C:\\proj;D:\\x");
}

#[test]
fn script_path_uses_the_platform_separator() {
    assert_eq!(script_path("/proj", false), "/proj/retro/web_gui.py");
    assert_eq!(script_path("C:\\proj", true), "C:\\proj\\retro\\web_gui.py");
}

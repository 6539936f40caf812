use openwork::engine::{
    base_url, engine_info, engine_start, engine_stop, not_found, serve_arguments, EngineManager,
    EngineState, Liveness,
};
use openwork::path::Platform;
use openwork::report::{EngineInfo, ErrorKind};
use openwork::resolver::HostEnv;

fn texts(items: &[&str]) -> Vec<String> {
    items.iter().map(|s| s.to_string()).collect()
}

fn host() -> HostEnv {
    HostEnv {
        platform: Platform::Unix,
        path_entries: texts(&["/usr/local/bin"]),
        home: Some("/home/me".to_string()),
        user_profile: None,
        app_data: None,
        xdg_config_home: None,
    }
}

fn installed() -> Vec<String> {
    texts(&["/usr/local/bin/opencode"])
}

fn assert_stopped(info: &EngineInfo) {
    assert!(!info.running);
    assert_eq!(info.base_url, None);
    assert_eq!(info.project_dir, None);
    assert_eq!(info.hostname, None);
    assert_eq!(info.port, None);
    assert_eq!(info.pid, None);
}

fn start(manager: &mut EngineManager, dir: &str, port: u16, pid: u32) -> (Option<u32>, EngineInfo) {
    let request = engine_start(dir).ok().unwrap();
    let ready = request.port_allocated(Ok(port)).ok().unwrap();
    let (superseded, terminated) = ready.supersede(manager);
    assert_eq!(manager.child_pid(), None);
    let plan = superseded.resolve(&host(), &installed()).ok().unwrap();
    let (displaced, result) = plan.finish(manager, Ok(pid), Liveness::Alive);
    assert_eq!(displaced, None);
    (terminated, result.ok().unwrap())
}

#[test]
fn a_new_supervisor_is_stopped() {
    let mut manager = EngineManager::new();
    assert_eq!(manager.child_pid(), None);
    assert_stopped(&engine_info(&mut manager, Liveness::Unknown));
    assert_eq!(EngineManager::default().child_pid(), None);
    assert_eq!(EngineState::default().child_pid(), None);
    let mut state = EngineState::new();
    assert_eq!(state.child_pid(), None);
    assert_stopped(&EngineManager::snapshot_locked(&mut state, Liveness::Alive));
    assert_eq!(EngineManager::stop_locked(&mut state), None);
}

#[test]
fn base_url_has_the_exact_form() {
    assert_eq!(base_url("127.0.0.1", 4096), "http://127.0.0.1:4096");
    assert_eq!(base_url("127.0.0.1", 0), "http://127.0.0.1:0");
    assert_eq!(base_url("localhost", 65535), "http://localhost:65535");
}

#[test]
fn serve_arguments_are_fixed_but_for_the_endpoint() {
    assert_eq!(
        serve_arguments("127.0.0.1", 51234),
        texts(&[
            "serve",
            "--hostname",
            "127.0.0.1",
            "--port",
            "51234",
            "--cors",
            "http://localhost:5173",
            "--cors",
            "tauri://localhost",
            "--cors",
            "http://tauri.localhost",
        ])
    );
}

#[test]
fn start_validates_the_project_directory() {
    for dir in ["", "   ", "\t\n"] {
        let error = engine_start(dir).err().unwrap();
        assert_eq!(error.kind, ErrorKind::Validation);
        assert_eq!(error.message(), "projectDir is required");
    }
    assert!(engine_start(" /p ").is_ok());
}

#[test]
fn start_with_an_empty_directory_leaves_a_running_instance_untouched() {
    let mut manager = EngineManager::new();
    start(&mut manager, "/first", 5000, 11);
    assert!(engine_start("").is_err());
    let info = engine_info(&mut manager, Liveness::Alive);
    assert!(info.running);
    assert_eq!(info.pid, Some(11));
    assert_eq!(info.project_dir, Some("/first".to_string()));
    assert_eq!(info.port, Some(5000));
}

#[test]
fn start_then_info_shows_the_run() {
    let mut manager = EngineManager::new();
    let (terminated, started) = start(&mut manager, "  /home/me/project ", 40123, 4242);
    assert_eq!(terminated, None);
    assert!(started.running);
    assert_eq!(started.pid, Some(4242));
    assert_eq!(started.port, Some(40123));
    assert_eq!(started.hostname, Some("127.0.0.1".to_string()));
    assert_eq!(started.base_url, Some("http://127.0.0.1:40123".to_string()));
    assert_eq!(started.project_dir, Some("/home/me/project".to_string()));
    let info = engine_info(&mut manager, Liveness::Alive);
    assert!(info.running);
    assert_eq!(info.pid, Some(4242));
    assert_eq!(info.base_url, Some("http://127.0.0.1:40123".to_string()));
    assert_eq!(info.project_dir, Some("/home/me/project".to_string()));
    assert_eq!(manager.child_pid(), Some(4242));
}

#[test]
fn the_spawn_command_runs_the_resolved_program_in_the_project() {
    let mut manager = EngineManager::new();
    let ready = engine_start(" /p ").ok().unwrap().port_allocated(Ok(8080)).ok().unwrap();
    let (superseded, _) = ready.supersede(&mut manager);
    let plan = superseded.resolve(&host(), &installed()).ok().unwrap();
    let command = plan.command();
    assert_eq!(command.program, "/usr/local/bin/opencode");
    assert_eq!(command.working_dir, Some("/p".to_string()));
    assert_eq!(command.args, serve_arguments("127.0.0.1", 8080));
    assert_eq!(command.set_var, None);
    assert!(!command.capture);
    assert!(!command.inherit_stdin);
}

#[test]
fn info_after_stop_is_empty() {
    let mut manager = EngineManager::new();
    start(&mut manager, "/p", 5000, 7);
    let (terminate, stopped) = engine_stop(&mut manager);
    assert_eq!(terminate, Some(7));
    assert_stopped(&stopped);
    for probe in [Liveness::Alive, Liveness::Exited, Liveness::Unknown] {
        assert_stopped(&engine_info(&mut manager, probe));
    }
    assert_eq!(manager.child_pid(), None);
}

#[test]
fn stop_when_stopped_is_idempotent() {
    let mut manager = EngineManager::new();
    let (first_pid, first) = engine_stop(&mut manager);
    let (second_pid, second) = engine_stop(&mut manager);
    assert_eq!(first_pid, None);
    assert_eq!(second_pid, None);
    assert_stopped(&first);
    assert_stopped(&second);
}

#[test]
fn a_second_start_terminates_the_first_child() {
    let mut manager = EngineManager::new();
    let (none, _) = start(&mut manager, "/one", 5001, 100);
    assert_eq!(none, None);
    let (terminated, info) = start(&mut manager, "/two", 5002, 200);
    assert_eq!(terminated, Some(100));
    assert_eq!(info.pid, Some(200));
    assert_eq!(info.project_dir, Some("/two".to_string()));
    assert_eq!(info.base_url, Some("http://127.0.0.1:5002".to_string()));
    assert_eq!(manager.child_pid(), Some(200));
}

#[test]
fn info_forgets_a_child_that_exited() {
    let mut manager = EngineManager::new();
    start(&mut manager, "/p", 5000, 9);
    let info = engine_info(&mut manager, Liveness::Exited);
    assert_stopped(&info);
    assert_eq!(manager.child_pid(), None);
    assert_stopped(&engine_info(&mut manager, Liveness::Alive));
}

#[test]
fn info_trusts_a_child_that_could_not_be_looked_at() {
    let mut manager = EngineManager::new();
    start(&mut manager, "/p", 5000, 9);
    let info = engine_info(&mut manager, Liveness::Unknown);
    assert!(info.running);
    assert_eq!(info.pid, Some(9));
    assert_eq!(manager.child_pid(), Some(9));
}

#[test]
fn allocation_failure_is_surfaced_verbatim_before_anything_changes() {
    let mut manager = EngineManager::new();
    start(&mut manager, "/p", 5000, 9);
    let request = engine_start("/q").ok().unwrap();
    let error = request.port_allocated(Err("Address not available".to_string())).err().unwrap();
    assert_eq!(error.kind, ErrorKind::Allocation);
    assert_eq!(error.message(), "Address not available");
    assert_eq!(manager.child_pid(), Some(9));
}

#[test]
fn start_without_an_executable_fails_after_superseding() {
    let mut manager = EngineManager::new();
    start(&mut manager, "/p", 5000, 9);
    let ready = engine_start("/q").ok().unwrap().port_allocated(Ok(5001)).ok().unwrap();
    let (superseded, terminated) = ready.supersede(&mut manager);
    assert_eq!(terminated, Some(9));
    let empty = HostEnv {
        platform: Platform::Unix,
        path_entries: Vec::new(),
        home: None,
        user_profile: None,
        app_data: None,
        xdg_config_home: None,
    };
    let error = superseded.resolve(&empty, &Vec::new()).err().unwrap();
    assert_eq!(error.kind, ErrorKind::NotFound);
    assert_eq!(
        error.message(),
        "OpenCode CLI not found.\n\nInstall with:\n- npm install -g opencode-ai\n- brew install anomalyco/tap/opencode\n- curl -fsSL https://opencode.ai/install | bash\n\nNotes:\nNo home directory: the per-user install location is not checked\nMissing: /opt/homebrew/bin/opencode\nMissing: /usr/local/bin/opencode\nMissing: /usr/bin/opencode"
    );
    assert_stopped(&engine_info(&mut manager, Liveness::Alive));
}

#[test]
fn not_found_text_on_windows() {
    let notes = texts(&["Not in PATH: C:\\a\\opencode.exe", "Missing: C:\\b\\opencode.cmd"]);
    assert_eq!(
        not_found(Platform::Windows, &notes),
        "OpenCode CLI not found.\n\nInstall with:\n- npm install -g opencode-ai\n- https://opencode.ai/install\n\nNotes:\nNot in PATH: C:\\a\\opencode.exe\nMissing: C:\\b\\opencode.cmd"
    );
    assert_eq!(
        not_found(Platform::Unix, &Vec::new()),
        "OpenCode CLI not found.\n\nInstall with:\n- npm install -g opencode-ai\n- brew install anomalyco/tap/opencode\n- curl -fsSL https://opencode.ai/install | bash\n\nNotes:\n"
    );
}

#[test]
fn a_failed_launch_is_a_spawn_error_and_records_nothing() {
    let mut manager = EngineManager::new();
    let ready = engine_start("/p").ok().unwrap().port_allocated(Ok(5000)).ok().unwrap();
    let (superseded, _) = ready.supersede(&mut manager);
    let plan = superseded.resolve(&host(), &installed()).ok().unwrap();
    let (displaced, result) =
        plan.finish(&mut manager, Err("Permission denied (os error 13)".to_string()), Liveness::Alive);
    assert_eq!(displaced, None);
    let error = result.err().unwrap();
    assert_eq!(error.kind, ErrorKind::Spawn);
    assert_eq!(error.message(), "Failed to start opencode: Permission denied (os error 13)");
    assert_eq!(manager.child_pid(), None);
}

#[test]
fn a_child_that_exits_at_once_shows_as_stopped() {
    let mut manager = EngineManager::new();
    let ready = engine_start("/p").ok().unwrap().port_allocated(Ok(5000)).ok().unwrap();
    let (superseded, _) = ready.supersede(&mut manager);
    let plan = superseded.resolve(&host(), &installed()).ok().unwrap();
    let (_, result) = plan.finish(&mut manager, Ok(5), Liveness::Exited);
    assert_stopped(&result.ok().unwrap());
    assert_eq!(manager.child_pid(), None);
}

#[test]
fn finish_names_a_child_it_displaces() {
    let mut manager = EngineManager::new();
    let ready = engine_start("/p").ok().unwrap().port_allocated(Ok(5000)).ok().unwrap();
    let (superseded, _) = ready.supersede(&mut manager);
    let plan = superseded.resolve(&host(), &installed()).ok().unwrap();
    start(&mut manager, "/other", 6000, 60);
    let (displaced, result) = plan.finish(&mut manager, Ok(70), Liveness::Alive);
    assert_eq!(displaced, Some(60));
    assert_eq!(result.ok().unwrap().pid, Some(70));
    assert_eq!(manager.child_pid(), Some(70));
}

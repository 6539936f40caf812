use openwork::command::RunOutcome;
use openwork::doctor::doctor_with_answers;
use openwork::engine::{engine_info, start_with_answers, EngineManager, Liveness};
use openwork::install::{install_with_outcomes, opkg_install};
use openwork::path::Platform;
use openwork::report::ErrorKind;
use openwork::resolver::HostEnv;

fn host() -> HostEnv {
    HostEnv {
        platform: Platform::Unix,
        path_entries: vec!["/bin".to_string()],
        home: None,
        user_profile: None,
        app_data: None,
        xdg_config_home: None,
    }
}

fn files() -> Vec<String> {
    vec!["/bin/opencode".to_string()]
}

fn missing() -> RunOutcome {
    RunOutcome::NotLaunched { not_found: true, error: "not found".to_string() }
}

fn ran(code: i32) -> RunOutcome {
    RunOutcome::Exited {
        success: code == 0,
        code: Some(code),
        stdout: "out".to_string(),
        stderr: String::new(),
    }
}

#[test]
fn two_whole_starts_leave_one_child() {
    let mut manager = EngineManager::new();
    let mut live: Vec<u32> = Vec::new();
    let mut spawns = 0;
    for (dir, port, pid) in [("/one", 7001u16, 31u32), ("/two", 7002, 32)] {
        let (terminated, result) =
            start_with_answers(&mut manager, dir, Ok(port), &host(), &files(), Ok(pid), Liveness::Alive);
        if let Some(old) = terminated {
            live.retain(|p| *p != old);
        }
        let info = result.ok().unwrap();
        assert!(info.running);
        live.push(pid);
        spawns += 1;
    }
    assert_eq!(spawns, 2);
    assert_eq!(live, vec![32]);
    assert_eq!(manager.child_pid(), Some(32));
    let info = engine_info(&mut manager, Liveness::Alive);
    assert_eq!(info.project_dir, Some("/two".to_string()));
    assert_eq!(info.base_url, Some("http://127.0.0.1:7002".to_string()));
}

#[test]
fn a_whole_start_stops_at_the_first_failure() {
    let mut manager = EngineManager::new();
    start_with_answers(&mut manager, "/one", Ok(7001), &host(), &files(), Ok(31), Liveness::Alive);

    let (terminated, result) =
        start_with_answers(&mut manager, " ", Ok(7002), &host(), &files(), Ok(32), Liveness::Alive);
    assert_eq!(terminated, None);
    assert_eq!(result.err().unwrap().kind, ErrorKind::Validation);
    assert_eq!(manager.child_pid(), Some(31));

    let (terminated, result) = start_with_answers(
        &mut manager,
        "/two",
        Err("no port".to_string()),
        &host(),
        &files(),
        Ok(32),
        Liveness::Alive,
    );
    assert_eq!(terminated, None);
    let error = result.err().unwrap();
    assert_eq!(error.kind, ErrorKind::Allocation);
    assert_eq!(error.message(), "no port");
    assert_eq!(manager.child_pid(), Some(31));

    let (terminated, result) =
        start_with_answers(&mut manager, "/two", Ok(7002), &host(), &Vec::new(), Ok(32), Liveness::Alive);
    assert_eq!(terminated, Some(31));
    assert_eq!(result.err().unwrap().kind, ErrorKind::NotFound);
    assert_eq!(manager.child_pid(), None);

    let (terminated, result) = start_with_answers(
        &mut manager,
        "/two",
        Ok(7002),
        &host(),
        &files(),
        Err("bad exe".to_string()),
        Liveness::Alive,
    );
    assert_eq!(terminated, None);
    let error = result.err().unwrap();
    assert_eq!(error.kind, ErrorKind::Spawn);
    assert_eq!(error.message(), "Failed to start opencode: bad exe");
    assert_eq!(manager.child_pid(), None);
}

#[test]
fn a_whole_diagnosis() {
    let report = doctor_with_answers(&host(), &files(), Some(ran(0)), Some(ran(0)));
    assert!(report.found);
    assert!(report.in_path);
    assert_eq!(report.version, Some("out".to_string()));
    assert!(report.supports_serve);
    let report = doctor_with_answers(&host(), &Vec::new(), Some(ran(0)), Some(ran(0)));
    assert!(!report.found);
    assert_eq!(report.version, None);
    assert!(!report.supports_serve);
    assert_eq!(report.notes.len(), 5);
    assert_eq!(report.notes[0], "Not in PATH: /bin/opencode");
    assert_eq!(
        report.notes[1],
        "No home directory: the per-user install location is not checked"
    );
    assert_eq!(report.notes[2], "Missing: /opt/homebrew/bin/opencode");
}

#[test]
fn a_whole_package_install() {
    let install = opkg_install("/p", "x").ok().unwrap();
    let end = install_with_outcomes(install, vec![missing(), missing(), ran(0), ran(5)]);
    let result = end.unwrap().ok().unwrap();
    assert!(result.ok);
    assert_eq!(result.status, 0);

    let install = opkg_install("/p", "x").ok().unwrap();
    let end = install_with_outcomes(install, vec![missing(), missing(), missing(), missing()]);
    let result = end.unwrap().ok().unwrap();
    assert!(!result.ok);
    assert_eq!(result.status, -1);

    let install = opkg_install("/p", "x").ok().unwrap();
    assert!(install_with_outcomes(install, vec![missing(), missing()]).is_none());

    let install = opkg_install("/p", "x").ok().unwrap();
    assert!(install_with_outcomes(install, Vec::new()).is_none());
}

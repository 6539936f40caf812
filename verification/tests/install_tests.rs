use openwork::command::{run_capture_optional, RunOutcome};
use openwork::install::{
    engine_install, engine_install_result, opkg_install, InstallPlan, PackageInstall, PackageStep,
    PackageTool,
};
use openwork::path::Platform;
use openwork::report::{ErrorKind, ExecResult};
use openwork::resolver::HostEnv;

fn texts(items: &[&str]) -> Vec<String> {
    items.iter().map(|s| s.to_string()).collect()
}

fn host(platform: Platform, home: Option<&str>) -> HostEnv {
    HostEnv {
        platform,
        path_entries: Vec::new(),
        home: home.map(|s| s.to_string()),
        user_profile: None,
        app_data: None,
        xdg_config_home: None,
    }
}

fn missing() -> RunOutcome {
    RunOutcome::NotLaunched { not_found: true, error: "No such file or directory".to_string() }
}

fn retry(step: PackageStep) -> PackageInstall {
    match step {
        PackageStep::Retry(next) => next,
        PackageStep::Done(_) => panic!("the install ended early"),
    }
}

fn done(step: PackageStep) -> Result<ExecResult, openwork::report::EngineError> {
    match step {
        PackageStep::Done(result) => result,
        PackageStep::Retry(_) => panic!("the install went on"),
    }
}

#[test]
fn exec_result_constructors() {
    let r = ExecResult::exited(false, None, "o".to_string(), "e".to_string());
    assert!(!r.ok);
    assert_eq!(r.status, -1);
    assert_eq!(r.stdout, "o");
    assert_eq!(r.stderr, "e");
    let r = ExecResult::exited(true, Some(0), String::new(), String::new());
    assert!(r.ok);
    assert_eq!(r.status, 0);
    let r = ExecResult::exited(false, Some(127), String::new(), String::new());
    assert_eq!(r.status, 127);
    let r = ExecResult::done("Wrote x".to_string());
    assert!(r.ok);
    assert_eq!(r.status, 0);
    assert_eq!(r.stdout, "Wrote x");
    assert_eq!(r.stderr, "");
    let r = ExecResult::guidance("do this".to_string());
    assert!(!r.ok);
    assert_eq!(r.status, -1);
    assert_eq!(r.stdout, "");
    assert_eq!(r.stderr, "do this");
}

#[test]
fn run_capture_optional_sorts_the_outcomes() {
    let exited = RunOutcome::Exited {
        success: false,
        code: Some(2),
        stdout: "out".to_string(),
        stderr: "err".to_string(),
    };
    let result = run_capture_optional("opkg", exited).ok().unwrap().unwrap();
    assert!(!result.ok);
    assert_eq!(result.status, 2);
    assert_eq!(result.stdout, "out");
    assert_eq!(result.stderr, "err");
    assert!(run_capture_optional("opkg", missing()).ok().unwrap().is_none());
    let denied = RunOutcome::NotLaunched { not_found: false, error: "Permission denied".to_string() };
    let error = run_capture_optional("pnpm", denied).err().unwrap();
    assert_eq!(error.kind, ErrorKind::Host);
    assert_eq!(error.message(), "Failed to run pnpm: Permission denied");
}

#[test]
fn a_consistent_exit_is_ok_exactly_with_status_zero() {
    for code in [Some(0), Some(1), Some(-1), Some(127), None] {
        let outcome = RunOutcome::Exited {
            success: code == Some(0),
            code,
            stdout: String::new(),
            stderr: String::new(),
        };
        let result = run_capture_optional("opkg", outcome).ok().unwrap().unwrap();
        assert_eq!(result.ok, result.status == 0);
        let outcome = RunOutcome::Exited {
            success: code == Some(0),
            code,
            stdout: String::new(),
            stderr: String::new(),
        };
        let result = engine_install_result(outcome).ok().unwrap();
        assert_eq!(result.ok, result.status == 0);
    }
}

#[test]
fn install_is_not_offered_on_windows() {
    match engine_install(&host(Platform::Windows, Some("C:\\Users\\me"))) {
        InstallPlan::Unsupported(result) => {
            assert!(!result.ok);
            assert_eq!(result.status, -1);
            assert_eq!(result.stdout, "");
            assert_eq!(
                result.stderr,
                "Guided install is not supported on Windows yet. Install OpenCode via:\n- npm install -g opencode-ai\n- https://opencode.ai/install\n\nThen restart OpenWork."
            );
        }
        InstallPlan::Run(_) => panic!("nothing is to be run on Windows"),
    }
}

#[test]
fn install_runs_the_script_into_the_home_directory() {
    match engine_install(&host(Platform::Unix, Some("/home/me"))) {
        InstallPlan::Run(command) => {
            assert_eq!(command.program, "bash");
            assert_eq!(command.args, texts(&["-lc", "curl -fsSL https://opencode.ai/install | bash"]));
            assert_eq!(command.working_dir, None);
            assert_eq!(
                command.set_var,
                Some(("OPENCODE_INSTALL_DIR".to_string(), "/home/me/.opencode/bin".to_string()))
            );
            assert!(command.capture);
        }
        InstallPlan::Unsupported(_) => panic!("the script is to be run"),
    }
    match engine_install(&host(Platform::Unix, None)) {
        InstallPlan::Run(command) => {
            assert_eq!(
                command.set_var,
                Some(("OPENCODE_INSTALL_DIR".to_string(), "./.opencode/bin".to_string()))
            );
        }
        InstallPlan::Unsupported(_) => panic!("the script is to be run"),
    }
}

#[test]
fn install_result_passes_the_run_on() {
    let ran = RunOutcome::Exited {
        success: true,
        code: Some(0),
        stdout: "installed".to_string(),
        stderr: String::new(),
    };
    let result = engine_install_result(ran).ok().unwrap();
    assert!(result.ok);
    assert_eq!(result.status, 0);
    assert_eq!(result.stdout, "installed");
    let killed = RunOutcome::Exited {
        success: false,
        code: None,
        stdout: String::new(),
        stderr: "killed".to_string(),
    };
    let result = engine_install_result(killed).ok().unwrap();
    assert!(!result.ok);
    assert_eq!(result.status, -1);
    let error = engine_install_result(missing()).err().unwrap();
    assert_eq!(error.kind, ErrorKind::Host);
    assert_eq!(error.message(), "Failed to run installer: No such file or directory");
}

#[test]
fn package_tools_in_order() {
    assert_eq!(PackageTool::Opkg.next(), Some(PackageTool::OpenPackage));
    assert_eq!(PackageTool::OpenPackage.next(), Some(PackageTool::PnpmDlx));
    assert_eq!(PackageTool::PnpmDlx.next(), Some(PackageTool::Npx));
    assert_eq!(PackageTool::Npx.next(), None);
    assert_eq!(PackageTool::Opkg.program(), "opkg");
    assert_eq!(PackageTool::OpenPackage.program(), "openpackage");
    assert_eq!(PackageTool::PnpmDlx.program(), "pnpm");
    assert_eq!(PackageTool::Npx.program(), "npx");
    assert_eq!(PackageTool::Opkg.arguments("p"), texts(&["install", "p"]));
    assert_eq!(PackageTool::OpenPackage.arguments("p"), texts(&["install", "p"]));
    assert_eq!(PackageTool::PnpmDlx.arguments("p"), texts(&["dlx", "opkg", "install", "p"]));
    assert_eq!(PackageTool::Npx.arguments("p"), texts(&["opkg", "install", "p"]));
}

#[test]
fn package_install_validates_its_inputs() {
    let error = opkg_install("  ", "pkg").err().unwrap();
    assert_eq!(error.kind, ErrorKind::Validation);
    assert_eq!(error.message(), "projectDir is required");
    let error = opkg_install("/p", " \n").err().unwrap();
    assert_eq!(error.kind, ErrorKind::Validation);
    assert_eq!(error.message(), "package is required");
    let error = opkg_install("", "").err().unwrap();
    assert_eq!(error.message(), "projectDir is required");
}

#[test]
fn package_install_falls_through_the_tools() {
    let install = opkg_install(" /p ", " some-skill ").ok().unwrap();
    let command = install.command();
    assert_eq!(command.program, "opkg");
    assert_eq!(command.args, texts(&["install", "some-skill"]));
    assert_eq!(command.working_dir, Some("/p".to_string()));
    assert_eq!(command.set_var, None);
    assert!(command.capture);
    let install = retry(install.advance(missing()));
    let command = install.command();
    assert_eq!(command.program, "openpackage");
    assert_eq!(command.args, texts(&["install", "some-skill"]));
    let install = retry(install.advance(missing()));
    let command = install.command();
    assert_eq!(command.program, "pnpm");
    assert_eq!(command.args, texts(&["dlx", "opkg", "install", "some-skill"]));
    let install = retry(install.advance(missing()));
    let command = install.command();
    assert_eq!(command.program, "npx");
    assert_eq!(command.args, texts(&["opkg", "install", "some-skill"]));
    assert_eq!(command.working_dir, Some("/p".to_string()));
    let result = done(install.advance(missing())).ok().unwrap();
    assert!(!result.ok);
    assert_eq!(result.status, -1);
    assert_eq!(result.stdout, "");
    assert_eq!(
        result.stderr,
        "OpenPackage CLI not found. Install with `npm install -g opkg` (or `openpackage`), or ensure pnpm/npx is available."
    );
}

#[test]
fn package_install_ends_with_the_first_tool_that_exists() {
    let install = opkg_install("/p", "x").ok().unwrap();
    let install = retry(install.advance(missing()));
    let ran = RunOutcome::Exited {
        success: false,
        code: Some(3),
        stdout: String::new(),
        stderr: "no such package".to_string(),
    };
    let result = done(install.advance(ran)).ok().unwrap();
    assert!(!result.ok);
    assert_eq!(result.status, 3);
    assert_eq!(result.stderr, "no such package");
}

#[test]
fn package_install_fails_when_a_tool_cannot_be_launched() {
    let install = opkg_install("/p", "x").ok().unwrap();
    let install = retry(install.advance(missing()));
    let install = retry(install.advance(missing()));
    let denied = RunOutcome::NotLaunched { not_found: false, error: "Permission denied".to_string() };
    let error = done(install.advance(denied)).err().unwrap();
    assert_eq!(error.kind, ErrorKind::Host);
    assert_eq!(error.message(), "Failed to run pnpm: Permission denied");
}

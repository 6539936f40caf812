use openwork::config::{read_opencode_config, resolve_opencode_config_path, write_opencode_config};
use openwork::path::Platform;
use openwork::report::ErrorKind;
use openwork::resolver::HostEnv;

fn host(xdg: Option<&str>, home: Option<&str>) -> HostEnv {
    HostEnv {
        platform: Platform::Unix,
        path_entries: Vec::new(),
        home: home.map(|s| s.to_string()),
        user_profile: Some("/profile".to_string()),
        app_data: None,
        xdg_config_home: xdg.map(|s| s.to_string()),
    }
}

#[test]
fn project_scope_lies_in_the_project() {
    let path = resolve_opencode_config_path("project", "/home/me/p", &host(None, None));
    assert_eq!(path.ok().unwrap(), "/home/me/p/opencode.json");
    let path = resolve_opencode_config_path("project", " /p ", &host(None, None));
    assert_eq!(path.ok().unwrap(), " /p /opencode.json");
}

#[test]
fn project_scope_needs_a_project_directory() {
    for dir in ["", "  ", "\n"] {
        let error = resolve_opencode_config_path("project", dir, &host(None, None)).err().unwrap();
        assert_eq!(error.kind, ErrorKind::Validation);
        assert_eq!(error.message(), "projectDir is required");
    }
}

#[test]
fn global_scope_prefers_the_xdg_base() {
    let path = resolve_opencode_config_path("global", "", &host(Some("/xdg"), Some("/home/me")));
    assert_eq!(path.ok().unwrap(), "/xdg/opencode/opencode.json");
    let path = resolve_opencode_config_path("global", "/ignored", &host(None, Some("/home/me")));
    assert_eq!(path.ok().unwrap(), "/home/me/.config/opencode/opencode.json");
    let path = resolve_opencode_config_path("global", "", &host(Some(""), Some("/home/me")));
    assert_eq!(path.ok().unwrap(), "opencode/opencode.json");
}

#[test]
fn global_scope_without_a_base_fails() {
    let error = resolve_opencode_config_path("global", "/p", &host(None, None)).err().unwrap();
    assert_eq!(error.kind, ErrorKind::Host);
    assert_eq!(error.message(), "Unable to resolve config directory");
}

#[test]
fn other_scopes_are_rejected() {
    for scope in ["", "Project", "user", " project", "global "] {
        let error = resolve_opencode_config_path(scope, "/p", &host(Some("/x"), None)).err().unwrap();
        assert_eq!(error.kind, ErrorKind::Validation);
        assert_eq!(error.message(), "scope must be 'project' or 'global'");
    }
}

#[test]
fn read_takes_the_scope_as_it_stands() {
    let read = read_opencode_config("project", "/p", &host(None, None)).ok().unwrap();
    assert_eq!(read.path(), "/p/opencode.json");
    for scope in [" project\n", " project ", "project ", "global\t", "projects", ""] {
        let error = read_opencode_config(scope, "/p", &host(Some("/x"), None)).err().unwrap();
        assert_eq!(error.kind, ErrorKind::Validation);
        assert_eq!(error.message(), "scope must be 'project' or 'global'");
    }
}

#[test]
fn write_takes_the_scope_as_it_stands() {
    for scope in [" project ", "global ", "Global", ""] {
        let error = write_opencode_config(scope, "/p", "{}".to_string(), &host(Some("/x"), None))
            .err()
            .unwrap();
        assert_eq!(error.kind, ErrorKind::Validation);
        assert_eq!(error.message(), "scope must be 'project' or 'global'");
    }
}

#[test]
fn read_reports_a_missing_file() {
    let read = read_opencode_config("project", "/p", &host(None, None)).ok().unwrap();
    let file = read.loaded(None).ok().unwrap();
    assert_eq!(file.path, "/p/opencode.json");
    assert!(!file.exists);
    assert_eq!(file.content, None);
}

#[test]
fn read_reports_the_content() {
    let read = read_opencode_config("global", "", &host(Some("/x"), None)).ok().unwrap();
    let file = read.loaded(Some(Ok("{\"a\": 1}\n".to_string()))).ok().unwrap();
    assert_eq!(file.path, "/x/opencode/opencode.json");
    assert!(file.exists);
    assert_eq!(file.content, Some("{\"a\": 1}\n".to_string()));
}

#[test]
fn read_reports_the_failure() {
    let read = read_opencode_config("project", "/p", &host(None, None)).ok().unwrap();
    let error = read.loaded(Some(Err("stream did not contain valid UTF-8".to_string()))).err().unwrap();
    assert_eq!(error.kind, ErrorKind::Host);
    assert_eq!(
        error.message(),
        "Failed to read /p/opencode.json: stream did not contain valid UTF-8"
    );
}

#[test]
fn write_names_directory_and_file() {
    let write =
        write_opencode_config("global", "", "{}".to_string(), &host(None, Some("/home/me"))).ok().unwrap();
    assert_eq!(write.dir(), "/home/me/.config/opencode");
    let file = write.dir_created(Ok(())).ok().unwrap();
    assert_eq!(file.path(), "/home/me/.config/opencode/opencode.json");
    assert_eq!(file.content(), "{}");
    let result = file.written(Ok(())).ok().unwrap();
    assert!(result.ok);
    assert_eq!(result.status, 0);
    assert_eq!(result.stdout, "Wrote /home/me/.config/opencode/opencode.json");
    assert_eq!(result.stderr, "");
}

#[test]
fn write_reports_its_failures() {
    let host = host(None, None);
    let error = write_opencode_config("nowhere", "/p", String::new(), &host).err().unwrap();
    assert_eq!(error.kind, ErrorKind::Validation);
    let error = write_opencode_config("project", "", String::new(), &host).err().unwrap();
    assert_eq!(error.message(), "projectDir is required");
    let write = write_opencode_config("project", "/p/", "x".to_string(), &host).ok().unwrap();
    assert_eq!(write.dir(), "/p");
    let error = write.dir_created(Err("Read-only file system".to_string())).err().unwrap();
    assert_eq!(error.kind, ErrorKind::Host);
    assert_eq!(error.message(), "Failed to create config dir /p: Read-only file system");
    let write = write_opencode_config("project", "/p", "x".to_string(), &host).ok().unwrap();
    let file = write.dir_created(Ok(())).ok().unwrap();
    let error = file.written(Err("No space left on device".to_string())).err().unwrap();
    assert_eq!(error.message(), "Failed to write /p/opencode.json: No space left on device");
}

#[test]
fn write_then_read_round_trips_through_a_store() {
    let host = host(None, None);
    let content = "{\n  \"model\": \"é\"\n}\n".to_string();
    let mut store: Vec<(String, String)> = Vec::new();
    let write = write_opencode_config("project", "/p", content.clone(), &host).ok().unwrap();
    let file = write.dir_created(Ok(())).ok().unwrap();
    store.push((file.path(), file.content()));
    assert!(file.written(Ok(())).is_ok());
    let read = read_opencode_config("project", "/p", &host).ok().unwrap();
    let path = read.path();
    let found = store.iter().find(|(p, _)| *p == path).map(|(_, c)| Ok(c.clone()));
    let back = read.loaded(found).ok().unwrap();
    assert!(back.exists);
    assert_eq!(back.content, Some(content));
    assert_eq!(back.path, "/p/opencode.json");
}

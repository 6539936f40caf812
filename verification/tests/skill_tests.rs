use openwork::path::Platform;
use openwork::report::ErrorKind;
use openwork::skill::{
    copy_begin, copy_dir_recursive, copy_failure, import_skill, CopyFailure, CopyStep, DirEntry,
    EntryKind,
};

fn entry(name: &str, kind: EntryKind) -> DirEntry {
    DirEntry { name: name.to_string(), kind }
}

fn describe(step: &CopyStep) -> String {
    match step {
        CopyStep::Descend { from, to } => format!("descend {} {}", from, to),
        CopyStep::CopyFile { from, to } => format!("copy {} {}", from, to),
    }
}

#[test]
fn import_validates_its_inputs() {
    let error = import_skill(Platform::Unix, " ", "/s/review").err().unwrap();
    assert_eq!(error.kind, ErrorKind::Validation);
    assert_eq!(error.message(), "projectDir is required");
    let error = import_skill(Platform::Unix, "/p", "\t").err().unwrap();
    assert_eq!(error.kind, ErrorKind::Validation);
    assert_eq!(error.message(), "sourceDir is required");
    for source in ["/", "..", "/s/..", "."] {
        let error = import_skill(Platform::Unix, "/p", source).err().unwrap();
        assert_eq!(error.kind, ErrorKind::Validation);
        assert_eq!(error.message(), "Failed to infer skill name from directory");
    }
}

#[test]
fn import_names_the_skill_after_the_source() {
    let import = import_skill(Platform::Unix, " /p ", " /skills/review/ ").ok().unwrap();
    assert_eq!(import.dest(), "/p/.opencode/skill/review");
    let copy = import.destination_checked(false, false).ok().unwrap();
    assert_eq!(copy.source(), "/skills/review/");
    assert_eq!(copy.dest(), "/p/.opencode/skill/review");
    assert!(!copy.remove_first());
    let result = copy.finish(Ok(())).ok().unwrap();
    assert!(result.ok);
    assert_eq!(result.status, 0);
    assert_eq!(result.stdout, "Imported skill to /p/.opencode/skill/review");
    assert_eq!(result.stderr, "");
}

#[test]
fn import_on_windows() {
    let import = import_skill(Platform::Windows, "C:\\p", "D:\\skills\\lint").ok().unwrap();
    assert_eq!(import.dest(), "C:\\p\\.opencode\\skill\\lint");
}

#[test]
fn import_refuses_to_replace_without_overwrite() {
    let import = import_skill(Platform::Unix, "/p", "/s/review").ok().unwrap();
    let error = import.destination_checked(true, false).err().unwrap();
    assert_eq!(error.kind, ErrorKind::Host);
    assert_eq!(error.message(), "Skill already exists at /p/.opencode/skill/review");
}

#[test]
fn import_replaces_with_overwrite() {
    let import = import_skill(Platform::Unix, "/p", "/s/review").ok().unwrap();
    let copy = import.destination_checked(true, true).ok().unwrap();
    assert!(copy.remove_first());
    let error = copy.removal_failed("Directory not empty");
    assert_eq!(error.kind, ErrorKind::Host);
    assert_eq!(
        error.message(),
        "Failed to remove existing skill dir /p/.opencode/skill/review: Directory not empty"
    );
    let import = import_skill(Platform::Unix, "/p", "/s/review").ok().unwrap();
    let copy = import.destination_checked(false, true).ok().unwrap();
    assert!(!copy.remove_first());
}

#[test]
fn import_passes_a_copy_failure_on() {
    let import = import_skill(Platform::Unix, "/p", "/s/review").ok().unwrap();
    let copy = import.destination_checked(false, false).ok().unwrap();
    let failure = copy_failure("/s/review", "/p/.opencode/skill/review", CopyFailure::NotADirectory);
    let error = copy.finish(Err(failure)).err().unwrap();
    assert_eq!(error.kind, ErrorKind::Host);
    assert_eq!(error.message(), "Source is not a directory: /s/review");
}

#[test]
fn copy_begins_only_with_a_directory() {
    assert!(copy_begin("/s/review", "/p/.opencode/skill/review", true).is_ok());
    let error = copy_begin("/s/review", "/p/.opencode/skill/review", false).err().unwrap();
    assert_eq!(error.kind, ErrorKind::Host);
    assert_eq!(error.message(), "Source is not a directory: /s/review");
}

#[test]
fn copy_steps_follow_the_listing() {
    let entries = vec![
        entry("SKILL.md", EntryKind::File),
        entry("link", EntryKind::Other),
        entry("scripts", EntryKind::Directory),
        entry("notes.txt", EntryKind::File),
    ];
    let steps = copy_dir_recursive(Platform::Unix, "/s/review", "/p/.opencode/skill/review", &entries);
    let described: Vec<String> = steps.iter().map(describe).collect();
    assert_eq!(
        described,
        vec![
            "copy /s/review/SKILL.md /p/.opencode/skill/review/SKILL.md".to_string(),
            "descend /s/review/scripts /p/.opencode/skill/review/scripts".to_string(),
            "copy /s/review/notes.txt /p/.opencode/skill/review/notes.txt".to_string(),
        ]
    );
}

#[test]
fn copy_steps_of_an_empty_or_linked_directory() {
    assert!(copy_dir_recursive(Platform::Unix, "/a", "/b", &Vec::new()).is_empty());
    let links = vec![entry("x", EntryKind::Other), entry("y", EntryKind::Other)];
    assert!(copy_dir_recursive(Platform::Unix, "/a", "/b", &links).is_empty());
}

#[test]
fn copy_failures_read_as_they_should() {
    let text = |what: CopyFailure| copy_failure("/src", "/dst", what).message();
    assert_eq!(text(CopyFailure::NotADirectory), "Source is not a directory: /src");
    assert_eq!(
        text(CopyFailure::CreateDir { error: "denied".to_string() }),
        "Failed to create dir /dst: denied"
    );
    assert_eq!(
        text(CopyFailure::ReadDir { error: "denied".to_string() }),
        "Failed to read dir /src: denied"
    );
    assert_eq!(text(CopyFailure::Entry { error: "Input/output error".to_string() }), "Input/output error");
    assert_eq!(
        text(CopyFailure::CopyFile {
            from: "/src/a".to_string(),
            to: "/dst/a".to_string(),
            error: "No space left".to_string(),
        }),
        "Failed to copy /src/a -> /dst/a: No space left"
    );
    assert_eq!(copy_failure("/src", "/dst", CopyFailure::NotADirectory).kind, ErrorKind::Host);
}

//! Diagnostics: what can be said about the engine executable without
//! starting the engine. Diagnostics never fail.

use crate::command::{outcome_view, CommandSpec, CommandSpecView, RunOutcome, RunOutcomeView};
use crate::report::{EngineDoctorResult, EngineDoctorResultView};
use crate::resolver::{
    candidates_spec, first_file, home_dir_spec, home_notes, home_unresolved_note,
    lemma_first_file, probe_paths_spec, resolution_spec, resolve_opencode_executable,
    search_probes_spec, HostEnv, HostEnvView,
};
use crate::text::{push_text, trim, trimmed};
use vstd::prelude::*;
use vstd::string::*;

verus! {

/// The version that a run with the version flag reported: what it wrote to
/// standard output, trimmed, or else to standard error, trimmed; none when
/// both are empty or the command was not launched.
pub open spec fn version_spec(outcome: RunOutcomeView) -> Option<Seq<char>> {
    match outcome {
        RunOutcomeView::Exited { success, code, stdout, stderr } => if trimmed(stdout).len() > 0 {
            Some(trimmed(stdout))
        } else if trimmed(stderr).len() > 0 {
            Some(trimmed(stderr))
        } else {
            None
        },
        RunOutcomeView::NotLaunched { not_found, error } => None,
    }
}

/// Whether a run of the serve-mode help succeeded.
pub open spec fn supports_serve_spec(outcome: RunOutcomeView) -> bool {
    match outcome {
        RunOutcomeView::Exited { success, code, stdout, stderr } => success,
        RunOutcomeView::NotLaunched { not_found, error } => false,
    }
}

/// `program --version`, output collected.
pub open spec fn version_command_spec(program: Seq<char>) -> CommandSpecView {
    CommandSpecView {
        program,
        args: seq!["--version"@],
        working_dir: None,
        set_var: None,
        capture: true,
        inherit_stdin: false,
    }
}

/// `program serve --help`, output discarded.
pub open spec fn serve_help_command_spec(program: Seq<char>) -> CommandSpecView {
    CommandSpecView {
        program,
        args: seq!["serve"@, "--help"@],
        working_dir: None,
        set_var: None,
        capture: false,
        inherit_stdin: true,
    }
}

/// The report on a resolution, given how the two probes ended. The probes
/// count only when an executable was resolved.
pub open spec fn report_spec(
    resolution: (Option<Seq<char>>, bool, Seq<Seq<char>>),
    version_run: Option<RunOutcomeView>,
    serve_run: Option<RunOutcomeView>,
) -> EngineDoctorResultView {
    let found = resolution.0 is Some;
    EngineDoctorResultView {
        found,
        in_path: resolution.1,
        resolved_path: resolution.0,
        version: match version_run {
            Some(run) => if found {
                version_spec(run)
            } else {
                None
            },
            None => None,
        },
        supports_serve: match serve_run {
            Some(run) => found && supports_serve_spec(run),
            None => false,
        },
        notes: resolution.2,
    }
}

/// The report, given the host and how the two probes ended.
pub open spec fn doctor_model(
    host: HostEnvView,
    files: Seq<Seq<char>>,
    version_run: Option<RunOutcomeView>,
    serve_run: Option<RunOutcomeView>,
) -> EngineDoctorResultView {
    report_spec(resolution_spec(host, files), version_run, serve_run)
}

/// The version that the executable reported.
pub fn opencode_version(outcome: &RunOutcome) -> (version: Option<String>)
    ensures
        version.deep_view() == version_spec(outcome@),
{
    match outcome {
        RunOutcome::Exited { success, code, stdout, stderr } => {
            let out = trim(stdout.as_str());
            if out.as_str().unicode_len() > 0 {
                return Some(out);
            }
            let err = trim(stderr.as_str());
            if err.as_str().unicode_len() > 0 {
                return Some(err);
            }
            None
        },
        RunOutcome::NotLaunched { not_found, error } => None,
    }
}

/// Whether the executable knows the serve mode.
pub fn opencode_supports_serve(outcome: &RunOutcome) -> (supported: bool)
    ensures
        supported == supports_serve_spec(outcome@),
{
    match outcome {
        RunOutcome::Exited { success, code, stdout, stderr } => *success,
        RunOutcome::NotLaunched { not_found, error } => false,
    }
}

/// The command that asks the executable for its version.
pub fn version_command(program: &str) -> (command: CommandSpec)
    ensures
        command@ == version_command_spec(program@),
{
    let mut args: Vec<String> = Vec::new();
    push_text(&mut args, "--version".to_owned());
    assert(args.deep_view() =~= seq!["--version"@]);
    CommandSpec {
        program: program.to_owned(),
        args,
        working_dir: None,
        set_var: None,
        capture: true,
        inherit_stdin: false,
    }
}

/// The command that asks the executable whether it has a serve mode.
pub fn serve_help_command(program: &str) -> (command: CommandSpec)
    ensures
        command@ == serve_help_command_spec(program@),
{
    let mut args: Vec<String> = Vec::new();
    push_text(&mut args, "serve".to_owned());
    push_text(&mut args, "--help".to_owned());
    assert(args.deep_view() =~= seq!["serve"@, "--help"@]);
    CommandSpec {
        program: program.to_owned(),
        args,
        working_dir: None,
        set_var: None,
        capture: false,
        inherit_stdin: true,
    }
}

/// A diagnosis under way: the executable is resolved, the probes are due.
pub struct DoctorPlan {
    resolved: Option<String>,
    in_path: bool,
    notes: Vec<String>,
}

impl DoctorPlan {
    /// The resolution that the diagnosis rests on.
    pub closed spec fn resolution(&self) -> (Option<Seq<char>>, bool, Seq<Seq<char>>) {
        (self.resolved.deep_view(), self.in_path, self.notes.deep_view())
    }

    /// The two probes to run, if there is an executable to probe: first the
    /// version, second the serve-mode help.
    pub fn probes(&self) -> (commands: Option<(CommandSpec, CommandSpec)>)
        ensures
            match self.resolution().0 {
                Some(program) => match commands {
                    Some(pair) => pair.0@ == version_command_spec(program) && pair.1@
                        == serve_help_command_spec(program),
                    None => false,
                },
                None => commands is None,
            },
    {
        match &self.resolved {
            Some(program) => Some(
                (version_command(program.as_str()), serve_help_command(program.as_str())),
            ),
            None => None,
        }
    }

    /// The report. An outcome that is absent, or given though nothing was
    /// resolved, tells nothing.
    pub fn report(self, version_run: Option<RunOutcome>, serve_run: Option<RunOutcome>) -> (report:
        EngineDoctorResult)
        ensures
            report@ == report_spec(
                self.resolution(),
                outcome_view(version_run),
                outcome_view(serve_run),
            ),
    {
        let found = self.resolved.is_some();
        let version = match &version_run {
            Some(run) => if found {
                opencode_version(run)
            } else {
                None
            },
            None => None,
        };
        let supports_serve = match &serve_run {
            Some(run) => found && opencode_supports_serve(run),
            None => false,
        };
        EngineDoctorResult {
            found,
            in_path: self.in_path,
            resolved_path: self.resolved,
            version,
            supports_serve,
            notes: self.notes,
        }
    }
}

/// The `doctor` operation, first step: resolves the executable on the host
/// as it is.
pub fn engine_doctor(host: &HostEnv, files: &Vec<String>) -> (plan: DoctorPlan)
    ensures
        plan.resolution() == resolution_spec(host@, files.deep_view()),
{
    let resolution = resolve_opencode_executable(host, files);
    DoctorPlan { resolved: resolution.0, in_path: resolution.1, notes: resolution.2 }
}

/// Runs a whole diagnosis against a host whose answers are known beforehand.
pub fn doctor_with_answers(
    host: &HostEnv,
    files: &Vec<String>,
    version_run: Option<RunOutcome>,
    serve_run: Option<RunOutcome>,
) -> (report: EngineDoctorResult)
    ensures
        report@ == doctor_model(
            host@,
            files.deep_view(),
            outcome_view(version_run),
            outcome_view(serve_run),
        ),
{
    engine_doctor(host, files).report(version_run, serve_run)
}

/// With no executable anywhere (none of the probed paths is a regular file)
/// the report says so, whatever the probes are claimed to have shown: nothing
/// found, no version, no serve mode. The notes hold a line for each probe of
/// the search path, then the line on the home directory if it is unresolved,
/// then one line for each fallback location, all in probing order.
pub proof fn lemma_doctor_when_absent(
    host: HostEnvView,
    files: Seq<Seq<char>>,
    version_run: Option<RunOutcomeView>,
    serve_run: Option<RunOutcomeView>,
)
    requires
        forall|j: int|
            0 <= j < probe_paths_spec(host).len() ==> !files.contains(
                #[trigger] probe_paths_spec(host)[j],
            ),
    ensures
        ({
            let report = doctor_model(host, files, version_run, serve_run);
            let search = search_probes_spec(host);
            let home = home_notes(host);
            let candidates = candidates_spec(host);
            &&& !report.found
            &&& !report.in_path
            &&& report.resolved_path is None
            &&& report.version is None
            &&& !report.supports_serve
            &&& report.notes.len() == search.len() + home.len() + candidates.len()
            &&& forall|i: int|
                0 <= i < search.len() ==> #[trigger] report.notes[i] == "Not in PATH: "@ + search[i]
            &&& forall|i: int|
                0 <= i < home.len() ==> #[trigger] report.notes[search.len() + i]
                    == home_unresolved_note()
            &&& forall|i: int|
                0 <= i < candidates.len() ==> #[trigger] report.notes[search.len() + home.len() + i]
                    == "Missing: "@ + candidates[i]
        }),
{
    let probes = probe_paths_spec(host);
    let search = search_probes_spec(host);
    let candidates = candidates_spec(host);
    lemma_first_file(search, files);
    if first_file(search, files) is Some {
        let i = first_file(search, files)->0;
        assert(probes[i] == search[i]);
    }
    lemma_first_file(candidates, files);
    if first_file(candidates, files) is Some {
        let i = first_file(candidates, files)->0;
        assert(probes[search.len() + i] == candidates[i]);
    }
}

/// With an empty search path and no executable in any fallback location,
/// nothing is found, and the notes hold exactly one line for each fallback
/// location, in probing order, behind the line on the home directory if it
/// is unresolved.
pub proof fn lemma_doctor_when_absent_and_no_search_path(
    host: HostEnvView,
    files: Seq<Seq<char>>,
    version_run: Option<RunOutcomeView>,
    serve_run: Option<RunOutcomeView>,
)
    requires
        host.path_entries.len() == 0,
        forall|j: int|
            0 <= j < candidates_spec(host).len() ==> !files.contains(
                #[trigger] candidates_spec(host)[j],
            ),
    ensures
        ({
            let report = doctor_model(host, files, version_run, serve_run);
            let home = home_notes(host);
            let candidates = candidates_spec(host);
            &&& !report.found
            &&& report.version is None
            &&& !report.supports_serve
            &&& report.notes.len() == home.len() + candidates.len()
            &&& home.len() == (if home_dir_spec(host) is None {
                1nat
            } else {
                0nat
            })
            &&& forall|i: int|
                0 <= i < home.len() ==> #[trigger] report.notes[i] == home_unresolved_note()
            &&& forall|i: int|
                0 <= i < candidates.len() ==> #[trigger] report.notes[home.len() + i]
                    == "Missing: "@ + candidates[i]
        }),
{
    let search = search_probes_spec(host);
    let candidates = candidates_spec(host);
    assert(search.len() == 0);
    assert(probe_paths_spec(host) =~= candidates);
    lemma_doctor_when_absent(host, files, version_run, serve_run);
    let report = doctor_model(host, files, version_run, serve_run);
    let home = home_notes(host);
    assert forall|i: int| 0 <= i < home.len() implies #[trigger] report.notes[i]
        == home_unresolved_note() by {
        assert(report.notes[search.len() + i] == home_unresolved_note());
    }
    assert forall|i: int| 0 <= i < candidates.len() implies #[trigger] report.notes[home.len() + i]
        == "Missing: "@ + candidates[i] by {
        assert(report.notes[search.len() + home.len() + i] == "Missing: "@ + candidates[i]);
    }
}

} // verus!

//! Installing things through external tools: the engine itself through its
//! install script, and packages through the first package tool that exists.

use crate::command::{
    capture_model, result_view, run_capture_optional, CommandSpec, CommandSpecView,
    RunOutcome, RunOutcomeView,
};
use crate::path::{join, join_spec, Platform};
use crate::report::{
    exited_result, failure, guidance_result, EngineError, EngineErrorView, ErrorKind, ExecResult,
    ExecResultView,
};
use crate::resolver::{home_dir, home_dir_spec, HostEnv, HostEnvView};
use crate::text::{concat2, is_blank, push_text, trim, trimmed};
use vstd::prelude::*;
use vstd::string::*;

verus! {

/// What the user reads where the guided install is not offered.
pub open spec fn install_unsupported_text() -> Seq<char> {
    "Guided install is not supported on Windows yet. Install OpenCode via:\n- npm install -g opencode-ai\n- https://opencode.ai/install\n\nThen restart OpenWork."@
}

/// The directory that the install script is told to install into: `.opencode/bin`
/// under the home directory, or under `.` without one.
pub open spec fn install_dir_spec(host: HostEnvView) -> Seq<char> {
    let home = match home_dir_spec(host) {
        Some(h) => h,
        None => "."@,
    };
    join_spec(host.platform, join_spec(host.platform, home, ".opencode"@), "bin"@)
}

/// The command that runs the install script.
pub open spec fn install_command_spec(host: HostEnvView) -> CommandSpecView {
    CommandSpecView {
        program: "bash"@,
        args: seq!["-lc"@, "curl -fsSL https://opencode.ai/install | bash"@],
        working_dir: None,
        set_var: Some(("OPENCODE_INSTALL_DIR"@, install_dir_spec(host))),
        capture: true,
        inherit_stdin: false,
    }
}

/// How an install begins.
pub enum InstallPlan {
    /// There is nothing to run: this is the result.
    Unsupported(ExecResult),
    /// Run this command, then hand its outcome to [`engine_install_result`].
    Run(CommandSpec),
}

/// What a [`InstallPlan`] holds, as mathematical values.
pub enum InstallPlanView {
    Unsupported(ExecResultView),
    Run(CommandSpecView),
}

impl View for InstallPlan {
    type V = InstallPlanView;

    open spec fn view(&self) -> InstallPlanView {
        match self {
            InstallPlan::Unsupported(r) => InstallPlanView::Unsupported(r@),
            InstallPlan::Run(c) => InstallPlanView::Run(c@),
        }
    }
}

/// On Windows the guided install is not offered, which is a result and no
/// failure; elsewhere the install script is run.
pub open spec fn install_plan_spec(host: HostEnvView) -> InstallPlanView {
    match host.platform {
        Platform::Windows => InstallPlanView::Unsupported(guidance_result(install_unsupported_text())),
        Platform::Unix => InstallPlanView::Run(install_command_spec(host)),
    }
}

/// What the run of the install script amounts to.
pub open spec fn install_result_spec(outcome: RunOutcomeView) -> Result<
    ExecResultView,
    EngineErrorView,
> {
    match outcome {
        RunOutcomeView::Exited { success, code, stdout, stderr } => Ok(
            exited_result(success, code, stdout, stderr),
        ),
        RunOutcomeView::NotLaunched { not_found, error } => Err(
            failure(ErrorKind::Host, "Failed to run installer: "@ + error),
        ),
    }
}

/// The result of a consistent run of the install script is ok exactly when
/// its status is 0.
pub proof fn lemma_install_ok_is_status_zero(outcome: RunOutcomeView)
    requires
        outcome.consistent(),
    ensures
        install_result_spec(outcome) matches Ok(result) ==> (result.ok <==> result.status == 0),
{
}

/// The `install` operation, first step.
pub fn engine_install(host: &HostEnv) -> (plan: InstallPlan)
    ensures
        plan@ == install_plan_spec(host@),
{
    match host.platform {
        Platform::Windows => InstallPlan::Unsupported(
            ExecResult::guidance(
                "Guided install is not supported on Windows yet. Install OpenCode via:\n- npm install -g opencode-ai\n- https://opencode.ai/install\n\nThen restart OpenWork.".to_owned(),
            ),
        ),
        Platform::Unix => {
            let home = match home_dir(host) {
                Some(h) => h,
                None => ".".to_owned(),
            };
            let dir = join(host.platform, home.as_str(), ".opencode");
            let bin = join(host.platform, dir.as_str(), "bin");
            let mut args: Vec<String> = Vec::new();
            push_text(&mut args, "-lc".to_owned());
            push_text(&mut args, "curl -fsSL https://opencode.ai/install | bash".to_owned());
            assert(args.deep_view() =~= seq![
                "-lc"@,
                "curl -fsSL https://opencode.ai/install | bash"@,
            ]);
            InstallPlan::Run(
                CommandSpec {
                    program: "bash".to_owned(),
                    args,
                    working_dir: None,
                    set_var: Some(("OPENCODE_INSTALL_DIR".to_owned(), bin)),
                    capture: true,
        inherit_stdin: false,
                },
            )
        },
    }
}

/// The `install` operation, last step: the result of the install script, or
/// the failure to launch it.
pub fn engine_install_result(outcome: RunOutcome) -> (result: Result<ExecResult, EngineError>)
    ensures
        result_view(result) == install_result_spec(outcome@),
        outcome@.consistent() ==> (result matches Ok(r) ==> (r.ok <==> r.status == 0)),
{
    match outcome {
        RunOutcome::Exited { success, code, stdout, stderr } => Ok(
            ExecResult::exited(success, code, stdout, stderr),
        ),
        RunOutcome::NotLaunched { not_found, error } => Err(
            EngineError::new(ErrorKind::Host, concat2("Failed to run installer: ", error.as_str())),
        ),
    }
}

/// The tools that can install a package, in the order in which they are tried.
#[derive(Clone, Copy, Debug, PartialEq, Eq, Structural)]
pub enum PackageTool {
    Opkg,
    OpenPackage,
    PnpmDlx,
    Npx,
}

impl PackageTool {
    /// The tool that is tried after this one.
    pub open spec fn next_spec(self) -> Option<PackageTool> {
        match self {
            PackageTool::Opkg => Some(PackageTool::OpenPackage),
            PackageTool::OpenPackage => Some(PackageTool::PnpmDlx),
            PackageTool::PnpmDlx => Some(PackageTool::Npx),
            PackageTool::Npx => None,
        }
    }

    /// The program of this tool.
    pub open spec fn program_spec(self) -> Seq<char> {
        match self {
            PackageTool::Opkg => "opkg"@,
            PackageTool::OpenPackage => "openpackage"@,
            PackageTool::PnpmDlx => "pnpm"@,
            PackageTool::Npx => "npx"@,
        }
    }

    /// The arguments with which this tool installs `package`.
    pub open spec fn arguments_spec(self, package: Seq<char>) -> Seq<Seq<char>> {
        match self {
            PackageTool::Opkg => seq!["install"@, package],
            PackageTool::OpenPackage => seq!["install"@, package],
            PackageTool::PnpmDlx => seq!["dlx"@, "opkg"@, "install"@, package],
            PackageTool::Npx => seq!["opkg"@, "install"@, package],
        }
    }

    /// The tool that is tried after this one.
    pub fn next(self) -> (tool: Option<PackageTool>)
        ensures
            tool == self.next_spec(),
    {
        match self {
            PackageTool::Opkg => Some(PackageTool::OpenPackage),
            PackageTool::OpenPackage => Some(PackageTool::PnpmDlx),
            PackageTool::PnpmDlx => Some(PackageTool::Npx),
            PackageTool::Npx => None,
        }
    }

    /// The program of this tool.
    pub fn program(self) -> (name: &'static str)
        ensures
            name@ == self.program_spec(),
    {
        match self {
            PackageTool::Opkg => "opkg",
            PackageTool::OpenPackage => "openpackage",
            PackageTool::PnpmDlx => "pnpm",
            PackageTool::Npx => "npx",
        }
    }

    /// The arguments with which this tool installs `package`.
    pub fn arguments(self, package: &str) -> (args: Vec<String>)
        ensures
            args.deep_view() == self.arguments_spec(package@),
    {
        let mut args: Vec<String> = Vec::new();
        match self {
            PackageTool::Opkg => {},
            PackageTool::OpenPackage => {},
            PackageTool::PnpmDlx => {
                push_text(&mut args, "dlx".to_owned());
                push_text(&mut args, "opkg".to_owned());
            },
            PackageTool::Npx => {
                push_text(&mut args, "opkg".to_owned());
            },
        }
        push_text(&mut args, "install".to_owned());
        push_text(&mut args, package.to_owned());
        assert(args.deep_view() =~= self.arguments_spec(package@));
        args
    }
}

/// The command with which `tool` installs `package` into `project_dir`.
pub open spec fn package_command_spec(
    tool: PackageTool,
    project_dir: Seq<char>,
    package: Seq<char>,
) -> CommandSpecView {
    CommandSpecView {
        program: tool.program_spec(),
        args: tool.arguments_spec(package),
        working_dir: Some(project_dir),
        set_var: None,
        capture: true,
        inherit_stdin: false,
    }
}

/// What the user reads when none of the tools exists.
pub open spec fn no_package_tool_text() -> Seq<char> {
    "OpenPackage CLI not found. Install with `npm install -g opkg` (or `openpackage`), or ensure pnpm/npx is available."@
}

/// A package install under way: `tool` is the one to try now.
pub struct PackageInstall {
    project_dir: String,
    package: String,
    tool: PackageTool,
}

/// What a [`PackageInstall`] holds, as mathematical values.
pub struct PackageInstallView {
    pub project_dir: Seq<char>,
    pub package: Seq<char>,
    pub tool: PackageTool,
}

impl View for PackageInstall {
    type V = PackageInstallView;

    closed spec fn view(&self) -> PackageInstallView {
        PackageInstallView {
            project_dir: self.project_dir@,
            package: self.package@,
            tool: self.tool,
        }
    }
}

/// What follows the run of one tool.
pub enum PackageStep {
    /// The tool does not exist: try the next one.
    Retry(PackageInstall),
    /// The install is over.
    Done(Result<ExecResult, EngineError>),
}

/// What a [`PackageStep`] holds, as mathematical values.
pub enum PackageStepView {
    Retry(PackageInstallView),
    Done(Result<ExecResultView, EngineErrorView>),
}

impl View for PackageStep {
    type V = PackageStepView;

    open spec fn view(&self) -> PackageStepView {
        match self {
            PackageStep::Retry(install) => PackageStepView::Retry(install@),
            PackageStep::Done(result) => PackageStepView::Done(result_view(*result)),
        }
    }
}

/// The first tool that exists decides: its result, or its failure to launch,
/// ends the install. A tool that does not exist hands over to the next; after
/// the last one the result is guidance, not a failure.
pub open spec fn package_step_spec(install: PackageInstallView, outcome: RunOutcomeView) -> PackageStepView {
    match capture_model(install.tool.program_spec(), outcome) {
        Ok(Some(result)) => PackageStepView::Done(Ok(result)),
        Err(e) => PackageStepView::Done(Err(e)),
        Ok(None) => match install.tool.next_spec() {
            Some(tool) => PackageStepView::Retry(
                PackageInstallView { project_dir: install.project_dir, package: install.package, tool },
            ),
            None => PackageStepView::Done(Ok(guidance_result(no_package_tool_text()))),
        },
    }
}

/// How a package install begins: both inputs are trimmed and must not be
/// empty; the first tool is `opkg`.
pub open spec fn package_install_spec(project_dir: Seq<char>, package: Seq<char>) -> Result<
    PackageInstallView,
    EngineErrorView,
> {
    if is_blank(project_dir) {
        Err(failure(ErrorKind::Validation, "projectDir is required"@))
    } else if is_blank(package) {
        Err(failure(ErrorKind::Validation, "package is required"@))
    } else {
        Ok(
            PackageInstallView {
                project_dir: trimmed(project_dir),
                package: trimmed(package),
                tool: PackageTool::Opkg,
            },
        )
    }
}

/// The views inside the first step's result.
pub open spec fn package_install_view(result: Result<PackageInstall, EngineError>) -> Result<
    PackageInstallView,
    EngineErrorView,
> {
    match result {
        Ok(install) => Ok(install@),
        Err(e) => Err(e@),
    }
}

/// The package install operation, first step.
pub fn opkg_install(project_dir: &str, package: &str) -> (next: Result<PackageInstall, EngineError>)
    ensures
        package_install_view(next) == package_install_spec(project_dir@, package@),
{
    let project_dir = trim(project_dir);
    if project_dir.as_str().unicode_len() == 0 {
        return Err(EngineError::new(ErrorKind::Validation, "projectDir is required".to_owned()));
    }
    let package = trim(package);
    if package.as_str().unicode_len() == 0 {
        return Err(EngineError::new(ErrorKind::Validation, "package is required".to_owned()));
    }
    Ok(PackageInstall { project_dir, package, tool: PackageTool::Opkg })
}

impl PackageInstall {
    /// The command to run now.
    pub fn command(&self) -> (command: CommandSpec)
        ensures
            command@ == package_command_spec(self@.tool, self@.project_dir, self@.package),
    {
        CommandSpec {
            program: self.tool.program().to_owned(),
            args: self.tool.arguments(self.package.as_str()),
            working_dir: Some(self.project_dir.clone()),
            set_var: None,
            capture: true,
        inherit_stdin: false,
        }
    }

    /// Takes the outcome of the command and says what follows.
    pub fn advance(self, outcome: RunOutcome) -> (step: PackageStep)
        ensures
            step@ == package_step_spec(self@, outcome@),
    {
        match run_capture_optional(self.tool.program(), outcome) {
            Ok(Some(result)) => PackageStep::Done(Ok(result)),
            Err(e) => PackageStep::Done(Err(e)),
            Ok(None) => match self.tool.next() {
                Some(tool) => PackageStep::Retry(
                    PackageInstall { project_dir: self.project_dir, package: self.package, tool },
                ),
                None => PackageStep::Done(
                    Ok(
                        ExecResult::guidance(
                            "OpenPackage CLI not found. Install with `npm install -g opkg` (or `openpackage`), or ensure pnpm/npx is available.".to_owned(),
                        ),
                    ),
                ),
            },
        }
    }
}

/// The whole install, given how each tool's run would end: the tools are
/// tried in order from `install.tool` on, and `outcomes` holds one outcome
/// for each of them.
pub open spec fn package_install_model(install: PackageInstallView, outcomes: Seq<RunOutcomeView>) -> Option<
    Result<ExecResultView, EngineErrorView>,
>
    decreases outcomes.len(),
{
    if outcomes.len() == 0 {
        None
    } else {
        match package_step_spec(install, outcomes[0]) {
            PackageStepView::Done(result) => Some(result),
            PackageStepView::Retry(next) => package_install_model(next, outcomes.drop_first()),
        }
    }
}

/// The views of a list of outcomes.
pub open spec fn outcomes_view(outcomes: Seq<RunOutcome>) -> Seq<RunOutcomeView> {
    Seq::new(outcomes.len(), |i: int| outcomes[i]@)
}

/// The views inside the end of an install that may not have been reached.
pub open spec fn end_view(end: Option<Result<ExecResult, EngineError>>) -> Option<
    Result<ExecResultView, EngineErrorView>,
> {
    match end {
        Some(result) => Some(result_view(result)),
        None => None,
    }
}

/// Runs an install against tools whose outcomes are known beforehand, one
/// outcome for each tool in the order of trying. Without enough outcomes to
/// reach the end there is no result.
pub fn install_with_outcomes(install: PackageInstall, outcomes: Vec<RunOutcome>) -> (end: Option<
    Result<ExecResult, EngineError>,
>)
    ensures
        end_view(end) == package_install_model(install@, outcomes_view(outcomes@)),
{
    let mut current = install;
    let mut rest = outcomes;
    loop
        invariant
            package_install_model(install@, outcomes_view(outcomes@)) == package_install_model(
                current@,
                outcomes_view(rest@),
            ),
        decreases rest.len(),
    {
        if rest.len() == 0 {
            return None;
        }
        let ghost before = outcomes_view(rest@);
        let outcome = rest.remove(0);
        proof {
            assert(before[0] == outcome@);
            assert(outcomes_view(rest@) =~= before.drop_first());
        }
        match current.advance(outcome) {
            PackageStep::Done(result) => {
                return Some(result);
            },
            PackageStep::Retry(next) => {
                current = next;
            },
        }
    }
}

/// When none of the four tools exists, the install ends in guidance: a result
/// that is not ok, and no failure.
pub proof fn lemma_no_tool_is_no_failure(
    project_dir: Seq<char>,
    package: Seq<char>,
    errors: Seq<Seq<char>>,
)
    requires
        errors.len() == 4,
    ensures
        ({
            let install = PackageInstallView { project_dir, package, tool: PackageTool::Opkg };
            let outcomes = Seq::new(
                4,
                |i: int| RunOutcomeView::NotLaunched { not_found: true, error: errors[i] },
            );
            package_install_model(install, outcomes) == Some(
                Ok::<ExecResultView, EngineErrorView>(guidance_result(no_package_tool_text())),
            )
        }),
{
    let install = PackageInstallView { project_dir, package, tool: PackageTool::Opkg };
    let o0 = Seq::new(4, |i: int| RunOutcomeView::NotLaunched { not_found: true, error: errors[i] });
    let o1 = o0.drop_first();
    let o2 = o1.drop_first();
    let o3 = o2.drop_first();
    let i1 = PackageInstallView { project_dir, package, tool: PackageTool::OpenPackage };
    let i2 = PackageInstallView { project_dir, package, tool: PackageTool::PnpmDlx };
    let i3 = PackageInstallView { project_dir, package, tool: PackageTool::Npx };
    assert(package_install_model(i3, o3) == Some(
        Ok::<ExecResultView, EngineErrorView>(guidance_result(no_package_tool_text())),
    ));
    assert(package_install_model(i2, o2) == package_install_model(i3, o3));
    assert(package_install_model(i1, o1) == package_install_model(i2, o2));
    assert(package_install_model(install, o0) == package_install_model(i1, o1));
}

} // verus!

//! The values that the operations hand back to the host application, and the
//! errors they fail with.

use vstd::prelude::*;
use vstd::string::*;

verus! {

/// A fresh picture of the supervised engine.
#[derive(Debug, Clone)]
pub struct EngineInfo {
    pub running: bool,
    pub base_url: Option<String>,
    pub project_dir: Option<String>,
    pub hostname: Option<String>,
    pub port: Option<u16>,
    pub pid: Option<u32>,
}

/// What a [`EngineInfo`] holds, as mathematical values.
pub struct EngineInfoView {
    pub running: bool,
    pub base_url: Option<Seq<char>>,
    pub project_dir: Option<Seq<char>>,
    pub hostname: Option<Seq<char>>,
    pub port: Option<u16>,
    pub pid: Option<u32>,
}

impl View for EngineInfo {
    type V = EngineInfoView;

    open spec fn view(&self) -> EngineInfoView {
        EngineInfoView {
            running: self.running,
            base_url: self.base_url.deep_view(),
            project_dir: self.project_dir.deep_view(),
            hostname: self.hostname.deep_view(),
            port: self.port,
            pid: self.pid,
        }
    }
}

/// What the diagnostics found out about the engine executable.
#[derive(Debug, Clone)]
pub struct EngineDoctorResult {
    pub found: bool,
    pub in_path: bool,
    pub resolved_path: Option<String>,
    pub version: Option<String>,
    pub supports_serve: bool,
    pub notes: Vec<String>,
}

/// What a [`EngineDoctorResult`] holds, as mathematical values.
pub struct EngineDoctorResultView {
    pub found: bool,
    pub in_path: bool,
    pub resolved_path: Option<Seq<char>>,
    pub version: Option<Seq<char>>,
    pub supports_serve: bool,
    pub notes: Seq<Seq<char>>,
}

impl View for EngineDoctorResult {
    type V = EngineDoctorResultView;

    open spec fn view(&self) -> EngineDoctorResultView {
        EngineDoctorResultView {
            found: self.found,
            in_path: self.in_path,
            resolved_path: self.resolved_path.deep_view(),
            version: self.version.deep_view(),
            supports_serve: self.supports_serve,
            notes: self.notes.deep_view(),
        }
    }
}

/// How an external command ended, with what it wrote.
#[derive(Debug, Clone)]
pub struct ExecResult {
    pub ok: bool,
    pub status: i32,
    pub stdout: String,
    pub stderr: String,
}

/// What a [`ExecResult`] holds, as mathematical values.
pub struct ExecResultView {
    pub ok: bool,
    pub status: int,
    pub stdout: Seq<char>,
    pub stderr: Seq<char>,
}

impl View for ExecResult {
    type V = ExecResultView;

    open spec fn view(&self) -> ExecResultView {
        ExecResultView {
            ok: self.ok,
            status: self.status as int,
            stdout: self.stdout@,
            stderr: self.stderr@,
        }
    }
}

/// A configuration file as it was found.
#[derive(Debug, Clone)]
pub struct OpencodeConfigFile {
    pub path: String,
    pub exists: bool,
    pub content: Option<String>,
}

/// What a [`OpencodeConfigFile`] holds, as mathematical values.
pub struct OpencodeConfigFileView {
    pub path: Seq<char>,
    pub exists: bool,
    pub content: Option<Seq<char>>,
}

impl View for OpencodeConfigFile {
    type V = OpencodeConfigFileView;

    open spec fn view(&self) -> OpencodeConfigFileView {
        OpencodeConfigFileView {
            path: self.path@,
            exists: self.exists,
            content: self.content.deep_view(),
        }
    }
}

/// The classes of failure.
#[derive(Clone, Copy, Debug, PartialEq, Eq, Structural)]
pub enum ErrorKind {
    /// The caller's input is unusable.
    Validation,
    /// The engine executable is nowhere to be found.
    NotFound,
    /// No free port could be had.
    Allocation,
    /// The operating system refused to launch the engine.
    Spawn,
    /// The host failed or refused a step of a collaborator operation.
    Host,
}

/// A failure, with the text that is shown to the user.
#[derive(Debug, Clone)]
pub struct EngineError {
    pub kind: ErrorKind,
    pub message: String,
}

/// What a [`EngineError`] holds, as mathematical values.
pub struct EngineErrorView {
    pub kind: ErrorKind,
    pub message: Seq<char>,
}

impl View for EngineError {
    type V = EngineErrorView;

    open spec fn view(&self) -> EngineErrorView {
        EngineErrorView { kind: self.kind, message: self.message@ }
    }
}

/// The failure of class `kind` that reads `message`.
pub open spec fn failure(kind: ErrorKind, message: Seq<char>) -> EngineErrorView {
    EngineErrorView { kind, message }
}

/// The result of a command that exited, as the user sees it: a missing exit
/// code reads -1.
pub open spec fn exited_result(
    success: bool,
    code: Option<i32>,
    stdout: Seq<char>,
    stderr: Seq<char>,
) -> ExecResultView {
    ExecResultView {
        ok: success,
        status: match code {
            Some(c) => c as int,
            None => -1,
        },
        stdout,
        stderr,
    }
}

/// The result of a step that the crate itself completed: status 0 and a
/// sentence on standard output.
pub open spec fn done_result(stdout: Seq<char>) -> ExecResultView {
    ExecResultView { ok: true, status: 0, stdout, stderr: Seq::empty() }
}

/// The result that stands for "could not even be tried": status -1 and
/// guidance on standard error.
pub open spec fn guidance_result(stderr: Seq<char>) -> ExecResultView {
    ExecResultView { ok: false, status: -1, stdout: Seq::empty(), stderr }
}

impl EngineError {
    /// The failure of class `kind` that reads `message`.
    pub fn new(kind: ErrorKind, message: String) -> (e: EngineError)
        ensures
            e@ == failure(kind, message@),
    {
        EngineError { kind, message }
    }

    /// The text of this failure.
    pub fn message(&self) -> (m: String)
        ensures
            m@ == self@.message,
    {
        self.message.clone()
    }
}

impl ExecResult {
    /// The result of a command that exited.
    pub fn exited(success: bool, code: Option<i32>, stdout: String, stderr: String) -> (r: ExecResult)
        ensures
            r@ == exited_result(success, code, stdout@, stderr@),
    {
        let status: i32 = match code {
            Some(c) => c,
            None => -1,
        };
        ExecResult { ok: success, status, stdout, stderr }
    }

    /// The result of a step that was completed, reported by `stdout`.
    pub fn done(stdout: String) -> (r: ExecResult)
        ensures
            r@ == done_result(stdout@),
    {
        ExecResult { ok: true, status: 0, stdout, stderr: String::new() }
    }

    /// The result that only tells the user, by `stderr`, what to do.
    pub fn guidance(stderr: String) -> (r: ExecResult)
        ensures
            r@ == guidance_result(stderr@),
    {
        ExecResult { ok: false, status: -1, stdout: String::new(), stderr }
    }
}

} // verus!

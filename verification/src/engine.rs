//! The engine supervisor: the record of the one child process that may run,
//! and the decisions of `start`, `stop` and `info`.
//!
//! The host owns the process handle and performs what the supervisor decides:
//! it allocates the port, terminates and reaps a child, spawns the command and
//! asks whether the child is still alive. The supervisor sees a child as its
//! process id and the host's answers as plain values.

use crate::command::{CommandSpec, CommandSpecView};
use crate::path::Platform;
use crate::report::{failure, EngineError, EngineErrorView, EngineInfo, EngineInfoView, ErrorKind};
use crate::resolver::{resolution_spec, resolve_opencode_executable, HostEnv, HostEnvView};
use crate::text::{
    concat2, concat3, decimal, decimal_text, is_blank, is_space, join_lines, joined,
    lemma_blank_iff_all_space, push_text, trim, trimmed,
};
use vstd::prelude::*;
use vstd::string::*;

verus! {

/// What a non-blocking look at the child showed.
#[derive(Clone, Copy, Debug, PartialEq, Eq, Structural)]
pub enum Liveness {
    /// The child has exited.
    Exited,
    /// The child is still running.
    Alive,
    /// The look itself failed.
    Unknown,
}

/// One run of the engine: the child and the endpoint it was started with.
pub struct EngineRun {
    pid: u32,
    project_dir: String,
    hostname: String,
    port: u16,
}

/// What an [`EngineRun`] holds, as mathematical values.
pub struct RunView {
    pub pid: u32,
    pub project_dir: Seq<char>,
    pub hostname: Seq<char>,
    pub port: u16,
}

impl View for EngineRun {
    type V = RunView;

    closed spec fn view(&self) -> RunView {
        RunView {
            pid: self.pid,
            project_dir: self.project_dir@,
            hostname: self.hostname@,
            port: self.port,
        }
    }
}

/// The supervisor's record: the current run, or none. The child and its
/// endpoint are one value, so they are set and cleared together.
pub struct EngineState {
    current: Option<EngineRun>,
}

impl View for EngineState {
    type V = Option<RunView>;

    closed spec fn view(&self) -> Option<RunView> {
        match self.current {
            Some(run) => Some(run@),
            None => None,
        }
    }
}

/// The address on which the engine listens.
pub open spec fn loopback() -> Seq<char> {
    "127.0.0.1"@
}

/// `http://<hostname>:<port>`.
pub open spec fn base_url_spec(hostname: Seq<char>, port: u16) -> Seq<char> {
    "http://"@ + hostname + ":"@ + decimal(port as nat)
}

/// The child of `state`, if any.
pub open spec fn handle(state: Option<RunView>) -> Option<u32> {
    match state {
        Some(run) => Some(run.pid),
        None => None,
    }
}

/// The working directory of the current run, if any.
pub open spec fn project_dir_of(state: Option<RunView>) -> Option<Seq<char>> {
    match state {
        Some(run) => Some(run.project_dir),
        None => None,
    }
}

/// The host name of the current run, if any.
pub open spec fn hostname_of(state: Option<RunView>) -> Option<Seq<char>> {
    match state {
        Some(run) => Some(run.hostname),
        None => None,
    }
}

/// The port of the current run, if any.
pub open spec fn port_of(state: Option<RunView>) -> Option<u16> {
    match state {
        Some(run) => Some(run.port),
        None => None,
    }
}

/// The base URL of the current run, if any.
pub open spec fn base_url_of(state: Option<RunView>) -> Option<Seq<char>> {
    match state {
        Some(run) => Some(base_url_spec(run.hostname, run.port)),
        None => None,
    }
}

/// The picture of a stopped supervisor: not running, nothing else known.
pub open spec fn stopped_info() -> EngineInfoView {
    EngineInfoView {
        running: false,
        base_url: None,
        project_dir: None,
        hostname: None,
        port: None,
        pid: None,
    }
}

/// The picture of a run in progress.
pub open spec fn running_info(run: RunView) -> EngineInfoView {
    EngineInfoView {
        running: true,
        base_url: Some(base_url_spec(run.hostname, run.port)),
        project_dir: Some(run.project_dir),
        hostname: Some(run.hostname),
        port: Some(run.port),
        pid: Some(run.pid),
    }
}

/// A query: a run whose child is seen to have exited is forgotten and shows
/// as stopped; a run whose child is alive, or could not be looked at, stays
/// and shows as running.
pub open spec fn snapshot_model(state: Option<RunView>, probe: Liveness) -> (
    Option<RunView>,
    EngineInfoView,
) {
    match state {
        None => (None, stopped_info()),
        Some(run) => if probe == Liveness::Exited {
            (None, stopped_info())
        } else {
            (state, running_info(run))
        },
    }
}

/// A stop: the run is forgotten, and its child, if any, is to be terminated.
pub open spec fn stop_model(state: Option<RunView>) -> (Option<RunView>, Option<u32>) {
    (None, handle(state))
}

/// The arguments with which the engine is launched.
pub open spec fn serve_arguments_spec(hostname: Seq<char>, port: u16) -> Seq<Seq<char>> {
    seq![
        "serve"@,
        "--hostname"@,
        hostname,
        "--port"@,
        decimal(port as nat),
        "--cors"@,
        "http://localhost:5173"@,
        "--cors"@,
        "tauri://localhost"@,
        "--cors"@,
        "http://tauri.localhost"@,
    ]
}

/// The command that launches the engine: `program` in serve mode on the
/// loopback address and `port`, run in `project_dir`, without standard input
/// and with its output discarded.
pub open spec fn spawn_command_spec(program: Seq<char>, project_dir: Seq<char>, port: u16) -> CommandSpecView {
    CommandSpecView {
        program,
        args: serve_arguments_spec(loopback(), port),
        working_dir: Some(project_dir),
        set_var: None,
        capture: false,
        inherit_stdin: false,
    }
}

/// What the user reads when the executable is not found: how to install it
/// on `platform`, then the notes of the search, one to a line.
pub open spec fn not_found_message(platform: Platform, notes: Seq<Seq<char>>) -> Seq<char> {
    let hints = match platform {
        Platform::Windows =>
            "OpenCode CLI not found.\n\nInstall with:\n- npm install -g opencode-ai\n- https://opencode.ai/install\n\nNotes:\n"@,
        Platform::Unix =>
            "OpenCode CLI not found.\n\nInstall with:\n- npm install -g opencode-ai\n- brew install anomalyco/tap/opencode\n- curl -fsSL https://opencode.ai/install | bash\n\nNotes:\n"@,
    };
    hints + joined(notes, "\n"@)
}

/// The failure of a start without a project directory.
pub open spec fn project_dir_required() -> EngineErrorView {
    failure(ErrorKind::Validation, "projectDir is required"@)
}

/// The failure of a start whose child could not be launched.
pub open spec fn spawn_failure(error: Seq<char>) -> EngineErrorView {
    failure(ErrorKind::Spawn, "Failed to start opencode: "@ + error)
}

/// The run that a successful launch puts on record.
pub open spec fn recorded_run(project_dir: Seq<char>, port: u16, pid: u32) -> RunView {
    RunView { pid, project_dir, hostname: loopback(), port }
}

/// A whole start, from the request to its result.
pub struct StartRunView {
    /// The supervisor's record afterwards.
    pub state: Option<RunView>,
    /// The child that the host was told to terminate.
    pub terminated: Option<u32>,
    /// The child that the host launched.
    pub launched: Option<u32>,
    pub result: Result<EngineInfoView, EngineErrorView>,
}

/// What a start does, given the record before it and every answer of the
/// host: the port allocation, the environment and files, the launch and the
/// look at the new child.
pub open spec fn start_model(
    state: Option<RunView>,
    project_dir: Seq<char>,
    port: Result<u16, Seq<char>>,
    host: HostEnvView,
    files: Seq<Seq<char>>,
    spawn: Result<u32, Seq<char>>,
    probe: Liveness,
) -> StartRunView {
    if is_blank(project_dir) {
        StartRunView { state, terminated: None, launched: None, result: Err(project_dir_required()) }
    } else {
        match port {
            Err(e) => StartRunView {
                state,
                terminated: None,
                launched: None,
                result: Err(failure(ErrorKind::Allocation, e)),
            },
            Ok(p) => {
                let resolution = resolution_spec(host, files);
                match resolution.0 {
                    None => StartRunView {
                        state: stop_model(state).0,
                        terminated: stop_model(state).1,
                        launched: None,
                        result: Err(
                            failure(
                                ErrorKind::NotFound,
                                not_found_message(host.platform, resolution.2),
                            ),
                        ),
                    },
                    Some(program) => match spawn {
                        Err(e) => StartRunView {
                            state: stop_model(state).0,
                            terminated: stop_model(state).1,
                            launched: None,
                            result: Err(spawn_failure(e)),
                        },
                        Ok(pid) => {
                            let run = recorded_run(trimmed(project_dir), p, pid);
                            let shot = snapshot_model(Some(run), probe);
                            StartRunView {
                                state: shot.0,
                                terminated: stop_model(state).1,
                                launched: Some(pid),
                                result: Ok(shot.1),
                            }
                        },
                    },
                }
            },
        }
    }
}

/// The children that `state` holds: one or none.
pub open spec fn children(state: Option<RunView>) -> Set<u32> {
    match state {
        Some(run) => set![run.pid],
        None => Set::empty(),
    }
}

/// `child` as a set.
pub open spec fn child_set(child: Option<u32>) -> Set<u32> {
    match child {
        Some(pid) => set![pid],
        None => Set::empty(),
    }
}

/// The children alive after a start, when `live` were alive before it, the
/// host terminated and launched what it was told to, and none exited by itself.
pub open spec fn live_after(live: Set<u32>, run: StartRunView) -> Set<u32> {
    live.difference(child_set(run.terminated)).union(child_set(run.launched))
}

impl EngineState {
    /// The record of a supervisor that has started nothing.
    pub fn new() -> (state: EngineState)
        ensures
            state@ is None,
    {
        EngineState { current: None }
    }

    /// The child on record, which the host holds the handle of.
    pub fn child_pid(&self) -> (pid: Option<u32>)
        ensures
            pid == handle(self@),
    {
        match &self.current {
            Some(run) => Some(run.pid),
            None => None,
        }
    }
}

impl Default for EngineState {
    fn default() -> (state: EngineState)
        ensures
            state@ is None,
    {
        EngineState::new()
    }
}

/// The base URL of an engine that listens on `hostname` and `port`.
pub fn base_url(hostname: &str, port: u16) -> (url: String)
    ensures
        url@ == base_url_spec(hostname@, port),
{
    let mut url = concat3("http://", hostname, ":");
    let digits = decimal_text(port as u32);
    url.append(digits.as_str());
    url
}

fn stopped() -> (info: EngineInfo)
    ensures
        info@ == stopped_info(),
{
    EngineInfo {
        running: false,
        base_url: None,
        project_dir: None,
        hostname: None,
        port: None,
        pid: None,
    }
}

fn running(run: &EngineRun) -> (info: EngineInfo)
    ensures
        info@ == running_info(run@),
{
    EngineInfo {
        running: true,
        base_url: Some(base_url(run.hostname.as_str(), run.port)),
        project_dir: Some(run.project_dir.clone()),
        hostname: Some(run.hostname.clone()),
        port: Some(run.port),
        pid: Some(run.pid),
    }
}

/// The supervisor. The host keeps the one instance behind its lock; a
/// `&mut` to it is the exclusive access that every operation takes.
pub struct EngineManager {
    inner: EngineState,
}

impl View for EngineManager {
    type V = Option<RunView>;

    closed spec fn view(&self) -> Option<RunView> {
        self.inner@
    }
}

impl EngineManager {
    /// A supervisor with nothing running.
    pub fn new() -> (manager: EngineManager)
        ensures
            manager@ is None,
    {
        EngineManager { inner: EngineState::new() }
    }

    /// The child on record.
    pub fn child_pid(&self) -> (pid: Option<u32>)
        ensures
            pid == handle(self@),
    {
        self.inner.child_pid()
    }

    /// Answers a query, given what a look at the child showed. `probe` is not
    /// read when no child is on record.
    pub fn snapshot_locked(state: &mut EngineState, probe: Liveness) -> (info: EngineInfo)
        ensures
            final(state)@ == snapshot_model(old(state)@, probe).0,
            info@ == snapshot_model(old(state)@, probe).1,
    {
        let exited = match probe {
            Liveness::Exited => true,
            Liveness::Alive => false,
            Liveness::Unknown => false,
        };
        let info = match &state.current {
            None => stopped(),
            Some(run) => if exited {
                stopped()
            } else {
                running(run)
            },
        };
        if exited {
            state.current = None;
        }
        info
    }

    /// Forgets the current run and names the child that the host has to
    /// terminate and reap, if there was one.
    pub fn stop_locked(state: &mut EngineState) -> (terminate: Option<u32>)
        ensures
            final(state)@ == stop_model(old(state)@).0,
            terminate == stop_model(old(state)@).1,
    {
        let terminate = state.child_pid();
        state.current = None;
        terminate
    }
}

impl Default for EngineManager {
    fn default() -> (manager: EngineManager)
        ensures
            manager@ is None,
    {
        EngineManager::new()
    }
}

/// The `info` operation.
pub fn engine_info(manager: &mut EngineManager, probe: Liveness) -> (info: EngineInfo)
    ensures
        final(manager)@ == snapshot_model(old(manager)@, probe).0,
        info@ == snapshot_model(old(manager)@, probe).1,
{
    EngineManager::snapshot_locked(&mut manager.inner, probe)
}

/// The `stop` operation: the child to terminate, if any, and the picture
/// afterwards, which is that of a stopped supervisor.
pub fn engine_stop(manager: &mut EngineManager) -> (stop: (Option<u32>, EngineInfo))
    ensures
        final(manager)@ == stop_model(old(manager)@).0,
        stop.0 == stop_model(old(manager)@).1,
        stop.1@ == stopped_info(),
{
    let terminate = EngineManager::stop_locked(&mut manager.inner);
    let info = EngineManager::snapshot_locked(&mut manager.inner, Liveness::Unknown);
    (terminate, info)
}

/// A start whose project directory is accepted. Next: allocate a port.
pub struct StartRequest {
    project_dir: String,
}

/// A start with its port. Next: take the supervisor's lock and supersede.
pub struct StartReady {
    project_dir: String,
    port: u16,
}

/// A start that has cleared the record. Next: terminate the old child, then
/// resolve the executable.
pub struct StartSuperseded {
    project_dir: String,
    port: u16,
}

/// A start that knows its executable. Next: launch the command.
pub struct SpawnPlan {
    project_dir: String,
    port: u16,
    program: String,
}

impl StartRequest {
    /// The project directory of this start, trimmed.
    pub closed spec fn project_dir(&self) -> Seq<char> {
        self.project_dir@
    }

    /// Takes the outcome of the port allocation: a failure ends the start,
    /// its text unchanged.
    pub fn port_allocated(self, port: Result<u16, String>) -> (next: Result<StartReady, EngineError>)
        ensures
            match port {
                Ok(p) => next is Ok && next->Ok_0.project_dir() == self.project_dir()
                    && next->Ok_0.port() == p,
                Err(e) => next is Err && next->Err_0@ == failure(ErrorKind::Allocation, e@),
            },
    {
        match port {
            Ok(p) => Ok(StartReady { project_dir: self.project_dir, port: p }),
            Err(e) => Err(EngineError::new(ErrorKind::Allocation, e)),
        }
    }
}

impl StartReady {
    /// The project directory of this start, trimmed.
    pub closed spec fn project_dir(&self) -> Seq<char> {
        self.project_dir@
    }

    /// The port allocated to this start.
    pub closed spec fn port(&self) -> u16 {
        self.port
    }

    /// Supersedes any earlier run: clears the record and names the child that
    /// the host has to terminate and reap before it goes on.
    pub fn supersede(self, manager: &mut EngineManager) -> (next: (StartSuperseded, Option<u32>))
        ensures
            final(manager)@ == stop_model(old(manager)@).0,
            next.1 == stop_model(old(manager)@).1,
            next.0.project_dir() == self.project_dir(),
            next.0.port() == self.port(),
    {
        let terminate = EngineManager::stop_locked(&mut manager.inner);
        (StartSuperseded { project_dir: self.project_dir, port: self.port }, terminate)
    }
}

impl StartSuperseded {
    /// The project directory of this start, trimmed.
    pub closed spec fn project_dir(&self) -> Seq<char> {
        self.project_dir@
    }

    /// The port allocated to this start.
    pub closed spec fn port(&self) -> u16 {
        self.port
    }

    /// Resolves the executable on the host as it is now. Without one the
    /// start ends, with install hints and the notes of the search.
    pub fn resolve(self, host: &HostEnv, files: &Vec<String>) -> (next: Result<SpawnPlan, EngineError>)
        ensures
            match resolution_spec(host@, files.deep_view()).0 {
                Some(program) => next is Ok && next->Ok_0.program() == program
                    && next->Ok_0.project_dir() == self.project_dir() && next->Ok_0.port()
                    == self.port(),
                None => next is Err && next->Err_0@ == failure(
                    ErrorKind::NotFound,
                    not_found_message(host.platform, resolution_spec(host@, files.deep_view()).2),
                ),
            },
    {
        let resolution = resolve_opencode_executable(host, files);
        match resolution.0 {
            Some(program) => Ok(
                SpawnPlan { project_dir: self.project_dir, port: self.port, program },
            ),
            None => Err(
                EngineError::new(ErrorKind::NotFound, not_found(host.platform, &resolution.2)),
            ),
        }
    }
}

/// The text of the failure to find the executable.
pub fn not_found(platform: Platform, notes: &Vec<String>) -> (message: String)
    ensures
        message@ == not_found_message(platform, notes.deep_view()),
{
    let hints = match platform {
        Platform::Windows =>
            "OpenCode CLI not found.\n\nInstall with:\n- npm install -g opencode-ai\n- https://opencode.ai/install\n\nNotes:\n",
        Platform::Unix =>
            "OpenCode CLI not found.\n\nInstall with:\n- npm install -g opencode-ai\n- brew install anomalyco/tap/opencode\n- curl -fsSL https://opencode.ai/install | bash\n\nNotes:\n",
    };
    let notes_text = join_lines(notes, "\n");
    concat2(hints, notes_text.as_str())
}

/// The arguments of the engine's serve mode on `hostname` and `port`, with
/// the origins that the user interface is served from.
pub fn serve_arguments(hostname: &str, port: u16) -> (args: Vec<String>)
    ensures
        args.deep_view() == serve_arguments_spec(hostname@, port),
{
    let mut args: Vec<String> = Vec::new();
    push_text(&mut args, "serve".to_owned());
    push_text(&mut args, "--hostname".to_owned());
    push_text(&mut args, hostname.to_owned());
    push_text(&mut args, "--port".to_owned());
    push_text(&mut args, decimal_text(port as u32));
    push_text(&mut args, "--cors".to_owned());
    push_text(&mut args, "http://localhost:5173".to_owned());
    push_text(&mut args, "--cors".to_owned());
    push_text(&mut args, "tauri://localhost".to_owned());
    push_text(&mut args, "--cors".to_owned());
    push_text(&mut args, "http://tauri.localhost".to_owned());
    assert(args.deep_view() =~= serve_arguments_spec(hostname@, port));
    args
}

impl SpawnPlan {
    /// The project directory of this start, trimmed.
    pub closed spec fn project_dir(&self) -> Seq<char> {
        self.project_dir@
    }

    /// The port allocated to this start.
    pub closed spec fn port(&self) -> u16 {
        self.port
    }

    /// The executable that was resolved.
    pub closed spec fn program(&self) -> Seq<char> {
        self.program@
    }

    /// The command to launch: the executable in serve mode on the loopback
    /// address and the allocated port, in the project directory, with no
    /// standard input and its output discarded.
    pub fn command(&self) -> (command: CommandSpec)
        ensures
            command@ == spawn_command_spec(self.program(), self.project_dir(), self.port()),
    {
        CommandSpec {
            program: self.program.clone(),
            args: serve_arguments("127.0.0.1", self.port),
            working_dir: Some(self.project_dir.clone()),
            set_var: None,
            capture: false,
            inherit_stdin: false,
        }
    }

    /// Takes the outcome of the launch and, for a child that was launched,
    /// what a first look at it showed. A launched child goes on record and the
    /// result is a fresh picture; a failed launch leaves the record as it is.
    /// The first component names a child that the new one displaced from the
    /// record and that the host has to terminate: none after `supersede`.
    pub fn finish(self, manager: &mut EngineManager, spawn: Result<u32, String>, probe: Liveness) -> (done: (
        Option<u32>,
        Result<EngineInfo, EngineError>,
    ))
        ensures
            match spawn {
                Ok(pid) => {
                    let run = recorded_run(self.project_dir(), self.port(), pid);
                    &&& done.0 == handle(old(manager)@)
                    &&& final(manager)@ == snapshot_model(Some(run), probe).0
                    &&& done.1 is Ok
                    &&& done.1->Ok_0@ == snapshot_model(Some(run), probe).1
                },
                Err(e) => {
                    &&& done.0 is None
                    &&& final(manager)@ == old(manager)@
                    &&& done.1 is Err
                    &&& done.1->Err_0@ == spawn_failure(e@)
                },
            },
    {
        match spawn {
            Ok(pid) => {
                let displaced = manager.inner.child_pid();
                manager.inner.current = Some(
                    EngineRun {
                        pid,
                        project_dir: self.project_dir,
                        hostname: "127.0.0.1".to_owned(),
                        port: self.port,
                    },
                );
                let info = EngineManager::snapshot_locked(&mut manager.inner, probe);
                (displaced, Ok(info))
            },
            Err(e) => {
                let message = concat2("Failed to start opencode: ", e.as_str());
                (None, Err(EngineError::new(ErrorKind::Spawn, message)))
            },
        }
    }
}

/// The `start` operation, first step: the project directory, trimmed, must
/// not be empty.
pub fn engine_start(project_dir: &str) -> (next: Result<StartRequest, EngineError>)
    ensures
        is_blank(project_dir@) <==> next is Err,
        next is Err ==> next->Err_0@ == project_dir_required(),
        next is Ok ==> next->Ok_0.project_dir() == trimmed(project_dir@),
{
    let dir = trim(project_dir);
    if dir.as_str().unicode_len() == 0 {
        Err(EngineError::new(ErrorKind::Validation, "projectDir is required".to_owned()))
    } else {
        Ok(StartRequest { project_dir: dir })
    }
}

/// The views inside an answer that is a number or an error text.
pub open spec fn answer_view<T>(answer: Result<T, String>) -> Result<T, Seq<char>> {
    match answer {
        Ok(value) => Ok(value),
        Err(error) => Err(error@),
    }
}

/// The views inside the result of a start.
pub open spec fn info_view(result: Result<EngineInfo, EngineError>) -> Result<
    EngineInfoView,
    EngineErrorView,
> {
    match result {
        Ok(info) => Ok(info@),
        Err(e) => Err(e@),
    }
}

/// Runs a whole start against a host whose answers are known beforehand:
/// the steps in their order, each given its answer as far as the start gets.
/// Returns the child that is to be terminated and the result of the start.
pub fn start_with_answers(
    manager: &mut EngineManager,
    project_dir: &str,
    port: Result<u16, String>,
    host: &HostEnv,
    files: &Vec<String>,
    spawn: Result<u32, String>,
    probe: Liveness,
) -> (run: (Option<u32>, Result<EngineInfo, EngineError>))
    ensures
        ({
            let model = start_model(
                old(manager)@,
                project_dir@,
                answer_view(port),
                host@,
                files.deep_view(),
                answer_view(spawn),
                probe,
            );
            &&& final(manager)@ == model.state
            &&& run.0 == model.terminated
            &&& info_view(run.1) == model.result
        }),
{
    let request = match engine_start(project_dir) {
        Ok(request) => request,
        Err(e) => {
            return (None, Err(e));
        },
    };
    let ready = match request.port_allocated(port) {
        Ok(ready) => ready,
        Err(e) => {
            return (None, Err(e));
        },
    };
    let (superseded, terminated) = ready.supersede(manager);
    let plan = match superseded.resolve(host, files) {
        Ok(plan) => plan,
        Err(e) => {
            return (terminated, Err(e));
        },
    };
    let (_displaced, result) = plan.finish(manager, spawn, probe);
    (terminated, result)
}

/// The child and the three parts of its endpoint are on record together or
/// not at all, and the base URL is made of host name and port.
pub proof fn lemma_run_is_one_unit(state: Option<RunView>)
    ensures
        handle(state) is Some <==> project_dir_of(state) is Some,
        handle(state) is Some <==> hostname_of(state) is Some,
        handle(state) is Some <==> port_of(state) is Some,
        handle(state) is Some <==> base_url_of(state) is Some,
        handle(state) is Some ==> base_url_of(state) == Some(
            base_url_spec(hostname_of(state)->0, port_of(state)->0),
        ),
        children(state).finite(),
        children(state).len() <= 1,
{
}

/// A query right after a stop shows a stopped supervisor with every optional
/// field empty, whatever was on record before and whatever the look showed.
pub proof fn lemma_info_after_stop(state: Option<RunView>, probe: Liveness)
    ensures
        ({
            let info = snapshot_model(stop_model(state).0, probe).1;
            &&& !info.running
            &&& info.base_url is None
            &&& info.project_dir is None
            &&& info.hostname is None
            &&& info.port is None
            &&& info.pid is None
            &&& snapshot_model(stop_model(state).0, probe).0 is None
        }),
{
}

/// After a start that launched its child, the start's own result and the
/// next query both show the run: running, with the child's id and the base
/// URL `http://127.0.0.1:<port>` for the port that was allocated, as long as
/// the child is not seen to have exited.
pub proof fn lemma_start_then_info(
    state: Option<RunView>,
    project_dir: Seq<char>,
    port: u16,
    host: HostEnvView,
    files: Seq<Seq<char>>,
    pid: u32,
    first_look: Liveness,
    second_look: Liveness,
)
    requires
        !is_blank(project_dir),
        resolution_spec(host, files).0 is Some,
        first_look != Liveness::Exited,
        second_look != Liveness::Exited,
    ensures
        ({
            let run = start_model(state, project_dir, Ok(port), host, files, Ok(pid), first_look);
            let info = snapshot_model(run.state, second_look).1;
            &&& run.result == Ok::<EngineInfoView, EngineErrorView>(info)
            &&& info.running
            &&& info.pid == Some(pid)
            &&& info.port == Some(port)
            &&& info.hostname == Some(loopback())
            &&& info.project_dir == Some(trimmed(project_dir))
            &&& info.base_url == Some("http://127.0.0.1:"@ + decimal(port as nat))
            &&& snapshot_model(run.state, second_look).0 == run.state
        }),
{
    reveal_strlit("http://127.0.0.1:");
    reveal_strlit("http://");
    reveal_strlit("127.0.0.1");
    reveal_strlit(":");
    assert("http://"@ + "127.0.0.1"@ + ":"@ =~= "http://127.0.0.1:"@);
    assert(base_url_spec(loopback(), port) =~= "http://127.0.0.1:"@ + decimal(port as nat));
}

/// Two starts in a row leave exactly one child alive: the second start has
/// the child of the first terminated, and only then launches its own. The
/// host may have changed between the two.
pub proof fn lemma_restart_leaves_one_child(
    state: Option<RunView>,
    dir1: Seq<char>,
    port1: u16,
    host1: HostEnvView,
    files1: Seq<Seq<char>>,
    pid1: u32,
    look1: Liveness,
    dir2: Seq<char>,
    port2: u16,
    host2: HostEnvView,
    files2: Seq<Seq<char>>,
    pid2: u32,
    look2: Liveness,
)
    requires
        !is_blank(dir1),
        !is_blank(dir2),
        resolution_spec(host1, files1).0 is Some,
        resolution_spec(host2, files2).0 is Some,
        look1 != Liveness::Exited,
        look2 != Liveness::Exited,
    ensures
        ({
            let first = start_model(state, dir1, Ok(port1), host1, files1, Ok(pid1), look1);
            let second = start_model(first.state, dir2, Ok(port2), host2, files2, Ok(pid2), look2);
            let live = live_after(live_after(children(state), first), second);
            &&& first.terminated == handle(state)
            &&& second.terminated == Some(pid1)
            &&& handle(second.state) == Some(pid2)
            &&& live == set![pid2]
            &&& live.len() == 1
            &&& live == children(second.state)
        }),
{
    let first = start_model(state, dir1, Ok(port1), host1, files1, Ok(pid1), look1);
    let second = start_model(first.state, dir2, Ok(port2), host2, files2, Ok(pid2), look2);
    let live = live_after(live_after(children(state), first), second);
    assert(live =~= set![pid2]);
}

/// Whatever a start does, the children alive afterwards are those on record:
/// the supervisor never loses track of a child, and never holds two.
pub proof fn lemma_start_keeps_track(
    state: Option<RunView>,
    project_dir: Seq<char>,
    port: Result<u16, Seq<char>>,
    host: HostEnvView,
    files: Seq<Seq<char>>,
    spawn: Result<u32, Seq<char>>,
    probe: Liveness,
)
    requires
        probe != Liveness::Exited,
    ensures
        ({
            let run = start_model(state, project_dir, port, host, files, spawn, probe);
            &&& live_after(children(state), run) == children(run.state)
            &&& children(run.state).len() <= 1
        }),
{
    let run = start_model(state, project_dir, port, host, files, spawn, probe);
    assert(live_after(children(state), run) =~= children(run.state));
}

/// Stopping a stopped supervisor terminates nothing and leaves it stopped,
/// and a second stop ends as the first did: stopped, with the same picture.
pub proof fn lemma_stop_is_idempotent(state: Option<RunView>)
    ensures
        stop_model(None) == (None::<RunView>, None::<u32>),
        stop_model(stop_model(state).0) == (None::<RunView>, None::<u32>),
        stop_model(stop_model(state).0).0 == stop_model(state).0,
        snapshot_model(stop_model(stop_model(state).0).0, Liveness::Unknown).1 == stopped_info(),
        snapshot_model(stop_model(state).0, Liveness::Unknown).1 == stopped_info(),
{
}

/// A start without a project directory fails as a validation error and
/// touches nothing: the record stays, no child is terminated or launched.
pub proof fn lemma_blank_start_changes_nothing(
    state: Option<RunView>,
    project_dir: Seq<char>,
    port: Result<u16, Seq<char>>,
    host: HostEnvView,
    files: Seq<Seq<char>>,
    spawn: Result<u32, Seq<char>>,
    probe: Liveness,
)
    requires
        is_blank(project_dir),
    ensures
        ({
            let run = start_model(state, project_dir, port, host, files, spawn, probe);
            &&& run.state == state
            &&& run.terminated is None
            &&& run.launched is None
            &&& run.result == Err::<EngineInfoView, EngineErrorView>(project_dir_required())
            &&& project_dir_required().kind == ErrorKind::Validation
        }),
{
}

/// A start is refused for want of a project directory exactly when the
/// directory holds nothing but white space, the empty directory included.
pub proof fn lemma_start_refuses_white_directories(
    state: Option<RunView>,
    project_dir: Seq<char>,
    port: Result<u16, Seq<char>>,
    host: HostEnvView,
    files: Seq<Seq<char>>,
    spawn: Result<u32, Seq<char>>,
    probe: Liveness,
)
    ensures
        (start_model(state, project_dir, port, host, files, spawn, probe).result == Err::<
            EngineInfoView,
            EngineErrorView,
        >(project_dir_required())) <==> (forall|i: int|
            0 <= i < project_dir.len() ==> is_space(#[trigger] project_dir[i])),
        start_model(state, Seq::empty(), port, host, files, spawn, probe).result == Err::<
            EngineInfoView,
            EngineErrorView,
        >(project_dir_required()),
{
    lemma_blank_iff_all_space(project_dir);
}

/// A start that cannot get a port fails before it touches the record.
pub proof fn lemma_allocation_failure_changes_nothing(
    state: Option<RunView>,
    project_dir: Seq<char>,
    error: Seq<char>,
    host: HostEnvView,
    files: Seq<Seq<char>>,
    spawn: Result<u32, Seq<char>>,
    probe: Liveness,
)
    requires
        !is_blank(project_dir),
    ensures
        ({
            let run = start_model(state, project_dir, Err(error), host, files, spawn, probe);
            &&& run.state == state
            &&& run.terminated is None
            &&& run.launched is None
            &&& run.result == Err::<EngineInfoView, EngineErrorView>(
                failure(ErrorKind::Allocation, error),
            )
        }),
{
}

} // verus!

//! External commands as plain values: what to run, and how a run ended.

use crate::report::{
    exited_result, failure, EngineError, EngineErrorView, ErrorKind, ExecResult, ExecResultView,
};
use crate::text::concat2;
use vstd::prelude::*;
use vstd::string::*;

verus! {

/// A command for the host to run.
pub struct CommandSpec {
    pub program: String,
    pub args: Vec<String>,
    /// The directory to run in; the host's own when absent.
    pub working_dir: Option<String>,
    /// One environment variable to set for the command: name and value.
    pub set_var: Option<(String, String)>,
    /// Whether the host collects what the command writes; else it is discarded.
    pub capture: bool,
    /// Whether the command reads the host's standard input; else it has none.
    pub inherit_stdin: bool,
}

/// What a [`CommandSpec`] holds, as mathematical values.
pub struct CommandSpecView {
    pub program: Seq<char>,
    pub args: Seq<Seq<char>>,
    pub working_dir: Option<Seq<char>>,
    pub set_var: Option<(Seq<char>, Seq<char>)>,
    pub capture: bool,
    pub inherit_stdin: bool,
}

impl View for CommandSpec {
    type V = CommandSpecView;

    open spec fn view(&self) -> CommandSpecView {
        CommandSpecView {
            program: self.program@,
            args: self.args.deep_view(),
            working_dir: self.working_dir.deep_view(),
            set_var: self.set_var.deep_view(),
            capture: self.capture,
            inherit_stdin: self.inherit_stdin,
        }
    }
}

/// How the run of a command ended.
pub enum RunOutcome {
    /// The command ran and exited. `code` is absent when a signal ended it;
    /// `stdout` and `stderr` hold what was collected, as text.
    Exited { success: bool, code: Option<i32>, stdout: String, stderr: String },
    /// The command could not be launched. `not_found` tells that the program
    /// does not exist; `error` is the operating system's message.
    NotLaunched { not_found: bool, error: String },
}

/// What a [`RunOutcome`] holds, as mathematical values.
pub enum RunOutcomeView {
    Exited { success: bool, code: Option<i32>, stdout: Seq<char>, stderr: Seq<char> },
    NotLaunched { not_found: bool, error: Seq<char> },
}

impl View for RunOutcome {
    type V = RunOutcomeView;

    open spec fn view(&self) -> RunOutcomeView {
        match self {
            RunOutcome::Exited { success, code, stdout, stderr } => RunOutcomeView::Exited {
                success: *success,
                code: *code,
                stdout: stdout@,
                stderr: stderr@,
            },
            RunOutcome::NotLaunched { not_found, error } => RunOutcomeView::NotLaunched {
                not_found: *not_found,
                error: error@,
            },
        }
    }
}

impl RunOutcomeView {
    /// Whether the exit is told consistently: a run counts as a success
    /// exactly when it exited with code 0. An exit without a code, as after a
    /// signal, is no success. Every outcome that the operating system reports
    /// is consistent.
    pub open spec fn consistent(self) -> bool {
        match self {
            RunOutcomeView::Exited { success, code, stdout, stderr } => success == (code == Some(
                0i32,
            )),
            RunOutcomeView::NotLaunched { not_found, error } => true,
        }
    }
}

/// The views of an optional outcome.
pub open spec fn outcome_view(outcome: Option<RunOutcome>) -> Option<RunOutcomeView> {
    match outcome {
        Some(o) => Some(o@),
        None => None,
    }
}

/// The views inside the result of an operation that ends in an `ExecResult`.
pub open spec fn result_view(result: Result<ExecResult, EngineError>) -> Result<
    ExecResultView,
    EngineErrorView,
> {
    match result {
        Ok(r) => Ok(r@),
        Err(e) => Err(e@),
    }
}

/// The views inside the result of a run that may not have taken place.
pub open spec fn capture_view(result: Result<Option<ExecResult>, EngineError>) -> Result<
    Option<ExecResultView>,
    EngineErrorView,
> {
    match result {
        Ok(Some(r)) => Ok(Some(r@)),
        Ok(None) => Ok(None),
        Err(e) => Err(e@),
    }
}

/// What a run of `program` amounts to: its result when it exited, nothing
/// when the program does not exist, a failure when it could not be launched
/// for another reason.
pub open spec fn capture_model(program: Seq<char>, outcome: RunOutcomeView) -> Result<
    Option<ExecResultView>,
    EngineErrorView,
> {
    match outcome {
        RunOutcomeView::Exited { success, code, stdout, stderr } => Ok(
            Some(exited_result(success, code, stdout, stderr)),
        ),
        RunOutcomeView::NotLaunched { not_found, error } => if not_found {
            Ok(None)
        } else {
            Err(failure(ErrorKind::Host, "Failed to run "@ + program + ": "@ + error))
        },
    }
}

/// The result of a consistent exit is ok exactly when its status is 0.
pub proof fn lemma_ok_is_status_zero(success: bool, code: Option<i32>, stdout: Seq<char>, stderr: Seq<
    char,
>)
    requires
        (RunOutcomeView::Exited { success, code, stdout, stderr }).consistent(),
    ensures
        exited_result(success, code, stdout, stderr).ok <==> exited_result(
            success,
            code,
            stdout,
            stderr,
        ).status == 0,
        exited_result(success, code, stdout, stderr).ok <==> code == Some(0i32),
{
}

/// A captured run of a consistent outcome is ok exactly when its status is 0.
pub proof fn lemma_captured_ok_is_status_zero(program: Seq<char>, outcome: RunOutcomeView)
    requires
        outcome.consistent(),
    ensures
        capture_model(program, outcome) matches Ok(Some(result)) ==> (result.ok <==> result.status
            == 0),
{
}

/// Turns the outcome of running `program` into a result; a program that does
/// not exist is no failure but the absence of a result.
pub fn run_capture_optional(program: &str, outcome: RunOutcome) -> (result: Result<
    Option<ExecResult>,
    EngineError,
>)
    ensures
        capture_view(result) == capture_model(program@, outcome@),
        outcome@.consistent() ==> (result matches Ok(Some(r)) ==> (r.ok <==> r.status == 0)),
{
    match outcome {
        RunOutcome::Exited { success, code, stdout, stderr } => Ok(
            Some(ExecResult::exited(success, code, stdout, stderr)),
        ),
        RunOutcome::NotLaunched { not_found, error } => {
            if not_found {
                Ok(None)
            } else {
                let mut message = concat2("Failed to run ", program);
                message.append(": ");
                message.append(error.as_str());
                Err(EngineError::new(ErrorKind::Host, message))
            }
        },
    }
}

} // verus!

//! What a process run to completion leaves behind, and how the two stages
//! of the pipeline read it.
//!
//! Spawning and waiting belong to the caller. It hands over the exit status
//! and both captured streams once the child has ended, or says that the
//! child could not be started at all: that is a fault of the installation,
//! not a failed build or a failed run.

use vstd::prelude::*;

verus! {

/// The build tool that the pipeline invokes.
pub const BUILD_TOOL: &'static str = "cargo";

/// The one argument that the build tool is given.
pub const BUILD_SUBCOMMAND: &'static str = "build";

/// What a process that ran to its end produced.
#[derive(Clone, Debug, PartialEq, Eq)]
pub struct ProcessOutput {
    /// Whether the process reported success on exit.
    pub exit_success: bool,
    /// Everything the process wrote to its standard output.
    pub stdout: Vec<u8>,
    /// Everything the process wrote to its standard error.
    pub stderr: Vec<u8>,
}

/// The model of a `ProcessOutput`.
pub struct ProcessOutputView {
    pub exit_success: bool,
    pub stdout: Seq<u8>,
    pub stderr: Seq<u8>,
}

impl View for ProcessOutput {
    type V = ProcessOutputView;

    open spec fn view(&self) -> ProcessOutputView {
        ProcessOutputView {
            exit_success: self.exit_success,
            stdout: self.stdout@,
            stderr: self.stderr@,
        }
    }
}

/// How an attempt to run a process ended.
#[derive(Clone, Debug, PartialEq, Eq)]
pub enum Completion {
    /// The process started and ran to its end.
    Exited(ProcessOutput),
    /// The process could not be started; the text says why.
    SpawnFailed(String),
}

/// The model of a `Completion`.
pub enum CompletionView {
    Exited(ProcessOutputView),
    SpawnFailed(Seq<char>),
}

impl View for Completion {
    type V = CompletionView;

    open spec fn view(&self) -> CompletionView {
        match self {
            Completion::Exited(output) => CompletionView::Exited(output@),
            Completion::SpawnFailed(reason) => CompletionView::SpawnFailed(reason@),
        }
    }
}

/// The outcome of a build.
#[derive(Clone, Debug, PartialEq, Eq)]
pub enum BuildOutcome {
    /// The build tool reported success.
    Success,
    /// The build tool reported failure; its diagnostics are kept.
    Failure(Vec<u8>),
}

/// The model of a `BuildOutcome`.
pub enum BuildOutcomeView {
    Success,
    Failure(Seq<u8>),
}

impl View for BuildOutcome {
    type V = BuildOutcomeView;

    open spec fn view(&self) -> BuildOutcomeView {
        match self {
            BuildOutcome::Success => BuildOutcomeView::Success,
            BuildOutcome::Failure(stderr) => BuildOutcomeView::Failure(stderr@),
        }
    }
}

/// The outcome of running the built program.
#[derive(Clone, Debug, PartialEq, Eq)]
pub enum RunOutcome {
    /// The program reported success; what it printed is kept.
    Success(Vec<u8>),
    /// The program reported failure; its diagnostics are kept.
    Failure(Vec<u8>),
}

/// The model of a `RunOutcome`.
pub enum RunOutcomeView {
    Success(Seq<u8>),
    Failure(Seq<u8>),
}

impl View for RunOutcome {
    type V = RunOutcomeView;

    open spec fn view(&self) -> RunOutcomeView {
        match self {
            RunOutcome::Success(stdout) => RunOutcomeView::Success(stdout@),
            RunOutcome::Failure(stderr) => RunOutcomeView::Failure(stderr@),
        }
    }
}

/// How the build stage reads the output of the build tool: success by the
/// exit status alone, failure together with the standard error.
pub open spec fn build_outcome_of(output: ProcessOutputView) -> BuildOutcomeView {
    if output.exit_success {
        BuildOutcomeView::Success
    } else {
        BuildOutcomeView::Failure(output.stderr)
    }
}

/// How the run stage reads the output of the program: success together
/// with the standard output, failure together with the standard error.
pub open spec fn run_outcome_of(output: ProcessOutputView) -> RunOutcomeView {
    if output.exit_success {
        RunOutcomeView::Success(output.stdout)
    } else {
        RunOutcomeView::Failure(output.stderr)
    }
}

/// Reads the output of the build tool.
pub fn build_outcome(output: ProcessOutput) -> (outcome: BuildOutcome)
    ensures
        outcome@ == build_outcome_of(output@),
{
    if output.exit_success {
        BuildOutcome::Success
    } else {
        BuildOutcome::Failure(output.stderr)
    }
}

/// Reads the output of the built program.
pub fn run_outcome(output: ProcessOutput) -> (outcome: RunOutcome)
    ensures
        outcome@ == run_outcome_of(output@),
{
    if output.exit_success {
        RunOutcome::Success(output.stdout)
    } else {
        RunOutcome::Failure(output.stderr)
    }
}

} // verus!

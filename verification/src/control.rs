//! The control loop: one change notification at a time, through the
//! debounce filter, into a build and, when the build succeeds, a run.
//!
//! The loop is a state machine that never waits and never spawns. Its
//! caller blocks on whatever the last command asked for, and hands back
//! what happened as the next event:
//!
//! ```text
//!   Idle ──change accepted──▶ Building ──build succeeded──▶ Locating
//!    ▲                           │                             │
//!    │◀──build failed────────────┘           manifest located  │
//!    │◀──manifest not located──────────────────────────────────┤
//!    │                                                         ▼
//!    └◀──run finished─────────────────────────────────────  Running
//! ```
//!
//! `Locating` and `Running` together are the run stage of the pipeline:
//! the manifest is read anew after every successful build, so an edited
//! package name takes effect without a restart. One pipeline is in flight
//! at most: while one is, only its own next event is expected.

use crate::debounce::{
    admits, after, fresh, interval_from_seconds, millis_of_seconds, DebounceState,
};
use crate::locator::{locate, located, LocateError, Platform};
use crate::process::{
    build_outcome, build_outcome_of, run_outcome, run_outcome_of, BuildOutcome, BuildOutcomeView,
    Completion, CompletionView, RunOutcome, RunOutcomeView,
};
use vstd::prelude::*;
use vstd::string::*;

verus! {

/// The file that names the package, looked up from the project root.
pub const MANIFEST_FILE: &'static str = "Cargo.toml";

/// The directory that is watched where none is given.
pub const DEFAULT_WATCH_PATH: &'static str = ".";

/// The debounce interval, in seconds, where none is given.
pub const DEFAULT_DEBOUNCE_SECONDS: u64 = 2;

/// What to watch and how long to wait between rebuilds.
#[derive(Clone, Debug, PartialEq, Eq)]
pub struct WatchConfig {
    /// The root of the directory tree that is watched.
    pub root_path: String,
    /// The debounce interval, in whole seconds.
    pub debounce_seconds: u64,
}

impl WatchConfig {
    /// A configuration for the tree under `root_path`, with a debounce
    /// interval of `debounce_seconds`.
    pub fn new(root_path: String, debounce_seconds: u64) -> (config: WatchConfig)
        ensures
            config.root_path@ == root_path@,
            config.debounce_seconds == debounce_seconds,
    {
        WatchConfig { root_path, debounce_seconds }
    }

    /// The debounce interval in milliseconds, the unit of the loop's clock.
    pub fn debounce_interval(&self) -> (millis: u64)
        ensures
            millis == millis_of_seconds(self.debounce_seconds),
    {
        interval_from_seconds(self.debounce_seconds)
    }
}

impl Default for WatchConfig {
    /// The current directory, with a debounce interval of two seconds.
    fn default() -> (config: WatchConfig)
        ensures
            config.root_path@ == DEFAULT_WATCH_PATH@,
            config.debounce_seconds == DEFAULT_DEBOUNCE_SECONDS,
    {
        WatchConfig::new(String::from_str(DEFAULT_WATCH_PATH), DEFAULT_DEBOUNCE_SECONDS)
    }
}

/// Where the loop stands.
#[derive(Clone, Copy, Debug, PartialEq, Eq, Structural)]
pub enum Phase {
    /// Waiting for the next change notification.
    Idle,
    /// The build tool is running.
    Building,
    /// The build succeeded; the manifest is being read to find what to run.
    Locating,
    /// The built program is running.
    Running,
    /// The notification channel is closed; the loop has ended.
    Stopped,
}

/// A stage of the pipeline.
#[derive(Clone, Copy, Debug, PartialEq, Eq, Structural)]
pub enum Stage {
    /// Building the project.
    Build,
    /// Running what was built.
    Run,
}

/// What happened, as the caller hands it to the loop.
#[derive(Clone, Debug, PartialEq, Eq)]
pub enum Event {
    /// Something changed under the watched tree, at about this time.
    Change { at: u64 },
    /// The watcher reported an error of its own; the text describes it.
    WatchError(String),
    /// The notification channel is closed for good.
    ChannelClosed,
    /// The attempt to run the build tool ended.
    BuildFinished(Completion),
    /// The manifest was read: its text, or nothing where that failed.
    ManifestRead(Option<String>),
    /// The attempt to run the built program ended.
    RunFinished(Completion),
}

/// The model of an `Event`.
pub enum EventView {
    Change { at: u64 },
    WatchError(Seq<char>),
    ChannelClosed,
    BuildFinished(CompletionView),
    ManifestRead(Option<Seq<char>>),
    RunFinished(CompletionView),
}

impl View for Event {
    type V = EventView;

    open spec fn view(&self) -> EventView {
        match self {
            Event::Change { at } => EventView::Change { at: *at },
            Event::WatchError(detail) => EventView::WatchError(detail@),
            Event::ChannelClosed => EventView::ChannelClosed,
            Event::BuildFinished(completion) => EventView::BuildFinished(completion@),
            Event::ManifestRead(manifest) => EventView::ManifestRead(
                match manifest {
                    Some(text) => Some(text@),
                    None => None,
                },
            ),
            Event::RunFinished(completion) => EventView::RunFinished(completion@),
        }
    }
}

/// What the user is to be told.
#[derive(Clone, Debug, PartialEq, Eq)]
pub enum Report {
    /// Nothing: a notification was suppressed.
    Quiet,
    /// A change was accepted and a rebuild begins.
    ChangeDetected,
    /// The build ended, with this outcome.
    Built(BuildOutcome),
    /// The built program ended, with this outcome.
    Ran(RunOutcome),
    /// A process of this stage could not be started; the text says why.
    SpawnFailed { stage: Stage, reason: String },
    /// The build succeeded but the executable could not be located.
    LocateFailed(LocateError),
    /// The watcher reported an error of its own.
    WatchError(String),
    /// The notification channel is closed.
    ChannelClosed,
}

/// The model of a `Report`.
pub enum ReportView {
    Quiet,
    ChangeDetected,
    Built(BuildOutcomeView),
    Ran(RunOutcomeView),
    SpawnFailed { stage: Stage, reason: Seq<char> },
    LocateFailed(LocateError),
    WatchError(Seq<char>),
    ChannelClosed,
}

impl View for Report {
    type V = ReportView;

    open spec fn view(&self) -> ReportView {
        match self {
            Report::Quiet => ReportView::Quiet,
            Report::ChangeDetected => ReportView::ChangeDetected,
            Report::Built(outcome) => ReportView::Built(outcome@),
            Report::Ran(outcome) => ReportView::Ran(outcome@),
            Report::SpawnFailed { stage, reason } => ReportView::SpawnFailed {
                stage: *stage,
                reason: reason@,
            },
            Report::LocateFailed(error) => ReportView::LocateFailed(*error),
            Report::WatchError(detail) => ReportView::WatchError(detail@),
            Report::ChannelClosed => ReportView::ChannelClosed,
        }
    }
}

/// What the caller is to do next.
#[derive(Clone, Debug, PartialEq, Eq)]
pub enum Command {
    /// Block until the next notification, and hand it in.
    AwaitChange,
    /// Run the build tool to its end, and hand in how that went.
    Build,
    /// Read the manifest, and hand in its text.
    ReadManifest,
    /// Run the executable at this path to its end, and hand in how that went.
    Launch(String),
    /// Leave the loop.
    Stop,
}

/// The model of a `Command`.
pub enum CommandView {
    AwaitChange,
    Build,
    ReadManifest,
    Launch(Seq<char>),
    Stop,
}

impl View for Command {
    type V = CommandView;

    open spec fn view(&self) -> CommandView {
        match self {
            Command::AwaitChange => CommandView::AwaitChange,
            Command::Build => CommandView::Build,
            Command::ReadManifest => CommandView::ReadManifest,
            Command::Launch(path) => CommandView::Launch(path@),
            Command::Stop => CommandView::Stop,
        }
    }
}

/// The loop's answer to an event.
#[derive(Clone, Debug, PartialEq, Eq)]
pub struct Reaction {
    /// What to tell the user.
    pub report: Report,
    /// What to do next.
    pub command: Command,
}

/// The model of a `Reaction`.
pub struct ReactionView {
    pub report: ReportView,
    pub command: CommandView,
}

impl View for Reaction {
    type V = ReactionView;

    open spec fn view(&self) -> ReactionView {
        ReactionView { report: self.report@, command: self.command@ }
    }
}

/// Why the loop took no step.
#[derive(Clone, Copy, Debug, PartialEq, Eq, Structural)]
pub enum StepError {
    /// The event is not one that the loop waits for in its phase.
    UnexpectedEvent,
}

/// The state of the control loop.
#[derive(Clone, Copy, Debug, PartialEq, Eq, Structural)]
pub struct ControlLoop {
    /// The debounce interval, in milliseconds.
    pub interval: u64,
    /// The platform that the executable is built for.
    pub platform: Platform,
    /// What the debounce filter remembers.
    pub debounce: DebounceState,
    /// Where the loop stands.
    pub phase: Phase,
}

/// The loop as it starts: idle, with a filter that has seen nothing.
pub open spec fn initial(interval: u64, platform: Platform) -> ControlLoop {
    ControlLoop { interval, platform, debounce: fresh(), phase: Phase::Idle }
}

/// `state`, moved to `phase`.
pub open spec fn in_phase(state: ControlLoop, phase: Phase) -> ControlLoop {
    ControlLoop { phase, ..state }
}

/// Whether the loop is in the middle of a pipeline.
pub open spec fn in_pipeline(phase: Phase) -> bool {
    phase is Building || phase is Locating || phase is Running
}

/// Whether `event` is one that the loop waits for in `phase`.
pub open spec fn expects(phase: Phase, event: EventView) -> bool {
    match phase {
        Phase::Idle => event is Change || event is WatchError || event is ChannelClosed,
        Phase::Building => event is BuildFinished,
        Phase::Locating => event is ManifestRead,
        Phase::Running => event is RunFinished,
        Phase::Stopped => false,
    }
}

/// The step of an idle loop on a change notification at `at`: through the
/// filter into a build, or suppressed.
pub open spec fn on_change(state: ControlLoop, at: u64) -> (ControlLoop, ReactionView) {
    if admits(state.debounce, at, state.interval) {
        (
            ControlLoop {
                debounce: after(state.debounce, at, state.interval),
                phase: Phase::Building,
                ..state
            },
            ReactionView { report: ReportView::ChangeDetected, command: CommandView::Build },
        )
    } else {
        (state, ReactionView { report: ReportView::Quiet, command: CommandView::AwaitChange })
    }
}

/// The step of a building loop when the build tool has ended: on to the
/// run stage after a success, back to waiting otherwise.
pub open spec fn on_build_finished(state: ControlLoop, completion: CompletionView) -> (
    ControlLoop,
    ReactionView,
) {
    match completion {
        CompletionView::Exited(output) => if output.exit_success {
            (
                in_phase(state, Phase::Locating),
                ReactionView {
                    report: ReportView::Built(build_outcome_of(output)),
                    command: CommandView::ReadManifest,
                },
            )
        } else {
            (
                in_phase(state, Phase::Idle),
                ReactionView {
                    report: ReportView::Built(build_outcome_of(output)),
                    command: CommandView::AwaitChange,
                },
            )
        },
        CompletionView::SpawnFailed(reason) => (
            in_phase(state, Phase::Idle),
            ReactionView {
                report: ReportView::SpawnFailed { stage: Stage::Build, reason },
                command: CommandView::AwaitChange,
            },
        ),
    }
}

/// The step of a locating loop when the manifest has been read: launch the
/// executable that this very text names, or report that none was found.
pub open spec fn on_manifest_read(state: ControlLoop, manifest: Option<Seq<char>>) -> (
    ControlLoop,
    ReactionView,
) {
    match located(manifest, state.platform) {
        Ok(path) => (
            in_phase(state, Phase::Running),
            ReactionView { report: ReportView::Quiet, command: CommandView::Launch(path) },
        ),
        Err(error) => (
            in_phase(state, Phase::Idle),
            ReactionView {
                report: ReportView::LocateFailed(error),
                command: CommandView::AwaitChange,
            },
        ),
    }
}

/// The step of a running loop when the program has ended: whatever its
/// exit status, relay what was captured and go back to waiting.
pub open spec fn on_run_finished(state: ControlLoop, completion: CompletionView) -> (
    ControlLoop,
    ReactionView,
) {
    (
        in_phase(state, Phase::Idle),
        ReactionView {
            report: match completion {
                CompletionView::Exited(output) => ReportView::Ran(run_outcome_of(output)),
                CompletionView::SpawnFailed(reason) => ReportView::SpawnFailed {
                    stage: Stage::Run,
                    reason,
                },
            },
            command: CommandView::AwaitChange,
        },
    )
}

/// The step that the loop takes from `state` on `event`: the state after
/// it and the reaction. There is none where the event is not expected.
pub open spec fn next(state: ControlLoop, event: EventView) -> Option<(ControlLoop, ReactionView)> {
    match (state.phase, event) {
        (Phase::Idle, EventView::Change { at }) => Some(on_change(state, at)),
        (Phase::Idle, EventView::WatchError(detail)) => Some(
            (
                state,
                ReactionView {
                    report: ReportView::WatchError(detail),
                    command: CommandView::AwaitChange,
                },
            ),
        ),
        (Phase::Idle, EventView::ChannelClosed) => Some(
            (
                in_phase(state, Phase::Stopped),
                ReactionView { report: ReportView::ChannelClosed, command: CommandView::Stop },
            ),
        ),
        (Phase::Building, EventView::BuildFinished(completion)) => Some(
            on_build_finished(state, completion),
        ),
        (Phase::Locating, EventView::ManifestRead(manifest)) => Some(
            on_manifest_read(state, manifest),
        ),
        (Phase::Running, EventView::RunFinished(completion)) => Some(
            on_run_finished(state, completion),
        ),
        _ => None,
    }
}

impl ControlLoop {
    /// A loop for `config` that locates executables for `platform`. It
    /// starts idle; the first thing to do is to await a change.
    pub fn new(config: &WatchConfig, platform: Platform) -> (state: ControlLoop)
        ensures
            state == initial(millis_of_seconds(config.debounce_seconds), platform),
    {
        ControlLoop {
            interval: config.debounce_interval(),
            platform,
            debounce: DebounceState::new(),
            phase: Phase::Idle,
        }
    }

    /// Tells whether a pipeline is in flight: a build or a run stage has
    /// begun and has not ended yet.
    pub fn is_busy(&self) -> (busy: bool)
        ensures
            busy == in_pipeline(self.phase),
    {
        match self.phase {
            Phase::Building | Phase::Locating | Phase::Running => true,
            Phase::Idle | Phase::Stopped => false,
        }
    }

    /// Takes the step for `event`.
    ///
    /// Where the event is one that the loop waits for in its phase, the
    /// loop moves on and answers with what to report and what to do next.
    /// Otherwise it stays as it is and says that the event was unexpected.
    pub fn step(&mut self, event: Event) -> (outcome: Result<Reaction, StepError>)
        ensures
            match next(*old(self), event@) {
                Some((state, reaction)) => {
                    &&& *final(self) == state
                    &&& outcome matches Ok(given)
                    &&& given@ == reaction
                },
                None => {
                    &&& *final(self) == *old(self)
                    &&& outcome == Err::<Reaction, StepError>(StepError::UnexpectedEvent)
                },
            },
    {
        match self.phase {
            Phase::Idle => match event {
                Event::Change { at } => {
                    if self.debounce.observe(at, self.interval) {
                        self.phase = Phase::Building;
                        Ok(Reaction { report: Report::ChangeDetected, command: Command::Build })
                    } else {
                        Ok(Reaction { report: Report::Quiet, command: Command::AwaitChange })
                    }
                },
                Event::WatchError(detail) => Ok(
                    Reaction { report: Report::WatchError(detail), command: Command::AwaitChange },
                ),
                Event::ChannelClosed => {
                    self.phase = Phase::Stopped;
                    Ok(Reaction { report: Report::ChannelClosed, command: Command::Stop })
                },
                _ => Err(StepError::UnexpectedEvent),
            },
            Phase::Building => match event {
                Event::BuildFinished(completion) => Ok(self.finish_build(completion)),
                _ => Err(StepError::UnexpectedEvent),
            },
            Phase::Locating => match event {
                Event::ManifestRead(manifest) => Ok(self.choose_executable(manifest)),
                _ => Err(StepError::UnexpectedEvent),
            },
            Phase::Running => match event {
                Event::RunFinished(completion) => Ok(self.finish_run(completion)),
                _ => Err(StepError::UnexpectedEvent),
            },
            Phase::Stopped => Err(StepError::UnexpectedEvent),
        }
    }

    /// The step of the build stage once the build tool has ended.
    fn finish_build(&mut self, completion: Completion) -> (reaction: Reaction)
        ensures
            (*final(self), reaction@) == on_build_finished(*old(self), completion@),
    {
        match completion {
            Completion::Exited(output) => {
                let succeeded = output.exit_success;
                let report = Report::Built(build_outcome(output));
                if succeeded {
                    self.phase = Phase::Locating;
                    Reaction { report, command: Command::ReadManifest }
                } else {
                    self.phase = Phase::Idle;
                    Reaction { report, command: Command::AwaitChange }
                }
            },
            Completion::SpawnFailed(reason) => {
                self.phase = Phase::Idle;
                Reaction {
                    report: Report::SpawnFailed { stage: Stage::Build, reason },
                    command: Command::AwaitChange,
                }
            },
        }
    }

    /// The step of the run stage once the manifest has been read.
    fn choose_executable(&mut self, manifest: Option<String>) -> (reaction: Reaction)
        ensures
            (*final(self), reaction@) == on_manifest_read(
                *old(self),
                match manifest {
                    Some(text) => Some(text@),
                    None => None,
                },
            ),
    {
        let outcome = match &manifest {
            Some(text) => locate(Some(text.as_str()), self.platform),
            None => locate(None, self.platform),
        };
        match outcome {
            Ok(path) => {
                self.phase = Phase::Running;
                Reaction { report: Report::Quiet, command: Command::Launch(path) }
            },
            Err(error) => {
                self.phase = Phase::Idle;
                Reaction { report: Report::LocateFailed(error), command: Command::AwaitChange }
            },
        }
    }

    /// The step of the run stage once the program has ended.
    fn finish_run(&mut self, completion: Completion) -> (reaction: Reaction)
        ensures
            (*final(self), reaction@) == on_run_finished(*old(self), completion@),
    {
        self.phase = Phase::Idle;
        let report = match completion {
            Completion::Exited(output) => Report::Ran(run_outcome(output)),
            Completion::SpawnFailed(reason) => Report::SpawnFailed { stage: Stage::Run, reason },
        };
        Reaction { report, command: Command::AwaitChange }
    }
}

} // verus!

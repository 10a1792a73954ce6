use cargomon::control::{
    Command, ControlLoop, Event, Phase, Reaction, Report, Stage, StepError, WatchConfig,
    DEFAULT_DEBOUNCE_SECONDS, DEFAULT_WATCH_PATH, MANIFEST_FILE,
};
use cargomon::debounce::DebounceState;
use cargomon::locator::{LocateError, Platform};
use cargomon::process::{BuildOutcome, Completion, ProcessOutput, RunOutcome};

const DEMO_MANIFEST: &str = "[package]\nname = \"demo\"\n";

fn new_loop(debounce_seconds: u64) -> ControlLoop {
    ControlLoop::new(&WatchConfig::new(String::from("."), debounce_seconds), Platform::Unix)
}

fn exited(exit_success: bool, stdout: &[u8], stderr: &[u8]) -> Completion {
    Completion::Exited(ProcessOutput {
        exit_success,
        stdout: stdout.to_vec(),
        stderr: stderr.to_vec(),
    })
}

fn reaction(report: Report, command: Command) -> Reaction {
    Reaction { report, command }
}

/// What a caller that obeys the loop has been asked to do.
struct Recorder {
    state: ControlLoop,
    builds: usize,
    manifest_reads: usize,
    launches: Vec<String>,
    reports: Vec<Report>,
}

impl Recorder {
    fn new(debounce_seconds: u64) -> Recorder {
        Recorder {
            state: new_loop(debounce_seconds),
            builds: 0,
            manifest_reads: 0,
            launches: Vec::new(),
            reports: Vec::new(),
        }
    }

    fn hand(&mut self, event: Event) -> Command {
        let given = self.state.step(event).unwrap();
        match &given.command {
            Command::Build => self.builds += 1,
            Command::ReadManifest => self.manifest_reads += 1,
            Command::Launch(path) => self.launches.push(path.clone()),
            Command::AwaitChange | Command::Stop => {}
        }
        self.reports.push(given.report);
        given.command
    }

    /// A change, and the whole pipeline that follows where it is accepted.
    fn change(&mut self, at: u64, build: Completion, manifest: Option<&str>, run: Completion) {
        if self.hand(Event::Change { at }) != Command::Build {
            return;
        }
        if self.hand(Event::BuildFinished(build)) != Command::ReadManifest {
            return;
        }
        let read = Event::ManifestRead(manifest.map(String::from));
        if let Command::Launch(_) = self.hand(read) {
            self.hand(Event::RunFinished(run));
        }
    }
}

#[test]
fn test_opt_default_values() {
    let config = WatchConfig::default();
    assert_eq!(config.root_path, ".");
    assert_eq!(config.debounce_seconds, 2);
}

#[test]
fn test_opt_custom_values() {
    let config = WatchConfig::new(String::from("./src"), 5);
    assert_eq!(config.root_path, "./src");
    assert_eq!(config.debounce_seconds, 5);
}

#[test]
fn defaults_are_named() {
    assert_eq!(DEFAULT_WATCH_PATH, ".");
    assert_eq!(DEFAULT_DEBOUNCE_SECONDS, 2);
    assert_eq!(MANIFEST_FILE, "Cargo.toml");
}

#[test]
fn debounce_interval_is_counted_in_milliseconds() {
    assert_eq!(WatchConfig::default().debounce_interval(), 2_000);
    assert_eq!(WatchConfig::new(String::from("."), 0).debounce_interval(), 0);
    assert_eq!(WatchConfig::new(String::from("."), u64::MAX).debounce_interval(), u64::MAX);
}

#[test]
fn a_new_loop_is_idle_and_has_seen_nothing() {
    let state = ControlLoop::new(&WatchConfig::default(), Platform::Windows);
    assert_eq!(
        state,
        ControlLoop {
            interval: 2_000,
            platform: Platform::Windows,
            debounce: DebounceState { last_accepted_at: None },
            phase: Phase::Idle,
        }
    );
    assert!(!state.is_busy());
}

#[test]
fn first_change_starts_a_build_whatever_the_interval() {
    for seconds in [0, 1, 2, 3_600, u64::MAX] {
        for at in [0, 1, 999, u64::MAX] {
            let mut state = new_loop(seconds);
            assert_eq!(
                state.step(Event::Change { at }),
                Ok(reaction(Report::ChangeDetected, Command::Build))
            );
            assert_eq!(state.phase, Phase::Building);
            assert_eq!(state.debounce.last_accepted_at, Some(at));
            assert!(state.is_busy());
        }
    }
}

#[test]
fn two_changes_a_tenth_of_a_second_apart_give_one_build() {
    let mut recorder = Recorder::new(1);
    recorder.change(0, exited(true, b"", b""), Some(DEMO_MANIFEST), exited(true, b"hi\n", b""));
    recorder.change(100, exited(true, b"", b""), Some(DEMO_MANIFEST), exited(true, b"hi\n", b""));
    assert_eq!(recorder.builds, 1);
    assert_eq!(recorder.launches, vec![String::from("target/debug/demo")]);
    assert_eq!(recorder.reports.last(), Some(&Report::Quiet));
    assert_eq!(recorder.state.phase, Phase::Idle);
    assert_eq!(recorder.state.debounce.last_accepted_at, Some(0));
}

#[test]
fn two_changes_an_interval_apart_give_two_builds() {
    let mut recorder = Recorder::new(1);
    recorder.change(0, exited(true, b"", b""), Some(DEMO_MANIFEST), exited(true, b"", b""));
    recorder.change(1_000, exited(true, b"", b""), Some(DEMO_MANIFEST), exited(true, b"", b""));
    assert_eq!(recorder.builds, 2);
    assert_eq!(recorder.launches.len(), 2);
    assert_eq!(recorder.state.debounce.last_accepted_at, Some(1_000));
}

#[test]
fn two_changes_just_short_of_the_interval_give_one_build() {
    let mut recorder = Recorder::new(1);
    recorder.change(5_000, exited(false, b"", b"e"), None, exited(true, b"", b""));
    recorder.change(5_999, exited(false, b"", b"e"), None, exited(true, b"", b""));
    assert_eq!(recorder.builds, 1);
}

#[test]
fn suppressed_change_leaves_the_loop_as_it_was() {
    let mut state = new_loop(2);
    state.step(Event::Change { at: 10 }).unwrap();
    state.step(Event::BuildFinished(exited(false, b"", b""))).unwrap();
    let before = state;
    assert_eq!(
        state.step(Event::Change { at: 2_009 }),
        Ok(reaction(Report::Quiet, Command::AwaitChange))
    );
    assert_eq!(state, before);
    assert_eq!(
        state.step(Event::Change { at: 2_010 }),
        Ok(reaction(Report::ChangeDetected, Command::Build))
    );
}

#[test]
fn failed_build_is_reported_and_nothing_is_run() {
    let mut recorder = Recorder::new(1);
    assert_eq!(recorder.hand(Event::Change { at: 0 }), Command::Build);
    let command = recorder.hand(Event::BuildFinished(exited(false, b"", b"error[E0001]")));
    assert_eq!(command, Command::AwaitChange);
    assert_eq!(
        recorder.reports.last(),
        Some(&Report::Built(BuildOutcome::Failure(b"error[E0001]".to_vec())))
    );
    assert_eq!(recorder.state.phase, Phase::Idle);
    assert!(!recorder.state.is_busy());
    assert_eq!(recorder.manifest_reads, 0);
    assert!(recorder.launches.is_empty());
    assert_eq!(
        recorder.state.step(Event::RunFinished(exited(true, b"", b""))),
        Err(StepError::UnexpectedEvent)
    );
    assert_eq!(
        recorder.state.step(Event::ManifestRead(Some(String::from(DEMO_MANIFEST)))),
        Err(StepError::UnexpectedEvent)
    );
    assert!(recorder.launches.is_empty());
}

#[test]
fn successful_build_runs_the_located_executable_once() {
    let mut recorder = Recorder::new(1);
    assert_eq!(recorder.hand(Event::Change { at: 0 }), Command::Build);
    assert_eq!(
        recorder.hand(Event::BuildFinished(exited(true, b"ignored", b"warning"))),
        Command::ReadManifest
    );
    assert_eq!(recorder.reports.last(), Some(&Report::Built(BuildOutcome::Success)));
    assert_eq!(recorder.state.phase, Phase::Locating);
    assert_eq!(
        recorder.hand(Event::ManifestRead(Some(String::from(DEMO_MANIFEST)))),
        Command::Launch(String::from("target/debug/demo"))
    );
    assert_eq!(recorder.reports.last(), Some(&Report::Quiet));
    assert_eq!(recorder.state.phase, Phase::Running);
    assert_eq!(
        recorder.hand(Event::RunFinished(exited(true, b"Hello\n", b""))),
        Command::AwaitChange
    );
    assert_eq!(
        recorder.reports.last(),
        Some(&Report::Ran(RunOutcome::Success(b"Hello\n".to_vec())))
    );
    assert_eq!(recorder.state.phase, Phase::Idle);
    assert_eq!(recorder.builds, 1);
    assert_eq!(recorder.manifest_reads, 1);
    assert_eq!(recorder.launches, vec![String::from("target/debug/demo")]);
}

#[test]
fn each_cycle_launches_what_the_manifest_names_then() {
    let mut recorder = Recorder::new(1);
    recorder.change(0, exited(true, b"", b""), Some("name = \"old\""), exited(true, b"", b""));
    recorder.change(1_000, exited(true, b"", b""), Some("name = \"new\""), exited(true, b"", b""));
    assert_eq!(
        recorder.launches,
        vec![String::from("target/debug/old"), String::from("target/debug/new")]
    );
}

#[test]
fn the_platform_decides_how_the_path_is_spelled() {
    let mut state = ControlLoop::new(&WatchConfig::default(), Platform::Windows);
    state.step(Event::Change { at: 0 }).unwrap();
    state.step(Event::BuildFinished(exited(true, b"", b""))).unwrap();
    assert_eq!(
        state.step(Event::ManifestRead(Some(String::from(DEMO_MANIFEST)))),
        Ok(reaction(Report::Quiet, Command::Launch(String::from("target\\debug\\demo.exe"))))
    );
}

#[test]
fn failed_run_relays_standard_error_and_the_loop_goes_on() {
    let mut recorder = Recorder::new(1);
    recorder.change(0, exited(true, b"", b""), Some(DEMO_MANIFEST), exited(false, b"out", b"boom"));
    assert_eq!(
        recorder.reports.last(),
        Some(&Report::Ran(RunOutcome::Failure(b"boom".to_vec())))
    );
    assert_eq!(recorder.state.phase, Phase::Idle);
    recorder.change(1_000, exited(true, b"", b""), Some(DEMO_MANIFEST), exited(true, b"ok", b""));
    assert_eq!(recorder.builds, 2);
    assert_eq!(recorder.launches.len(), 2);
}

#[test]
fn unreadable_manifest_is_reported_as_not_found() {
    let mut recorder = Recorder::new(1);
    recorder.hand(Event::Change { at: 0 });
    recorder.hand(Event::BuildFinished(exited(true, b"", b"")));
    assert_eq!(recorder.hand(Event::ManifestRead(None)), Command::AwaitChange);
    assert_eq!(recorder.reports.last(), Some(&Report::LocateFailed(LocateError::NotFound)));
    assert_eq!(recorder.state.phase, Phase::Idle);
    assert!(recorder.launches.is_empty());
}

#[test]
fn manifest_without_name_is_reported_as_malformed() {
    let mut recorder = Recorder::new(1);
    recorder.hand(Event::Change { at: 0 });
    recorder.hand(Event::BuildFinished(exited(true, b"", b"")));
    let read = Event::ManifestRead(Some(String::from("[package]\n")));
    assert_eq!(recorder.hand(read), Command::AwaitChange);
    assert_eq!(recorder.reports.last(), Some(&Report::LocateFailed(LocateError::Malformed)));
    assert_eq!(recorder.state.phase, Phase::Idle);
    assert!(recorder.launches.is_empty());
}

#[test]
fn failure_to_spawn_is_told_apart_from_a_failed_build_or_run() {
    let mut state = new_loop(1);
    state.step(Event::Change { at: 0 }).unwrap();
    assert_eq!(
        state.step(Event::BuildFinished(Completion::SpawnFailed(String::from("no cargo")))),
        Ok(reaction(
            Report::SpawnFailed { stage: Stage::Build, reason: String::from("no cargo") },
            Command::AwaitChange
        ))
    );
    assert_eq!(state.phase, Phase::Idle);

    state.step(Event::Change { at: 1_000 }).unwrap();
    state.step(Event::BuildFinished(exited(true, b"", b""))).unwrap();
    state.step(Event::ManifestRead(Some(String::from(DEMO_MANIFEST)))).unwrap();
    assert_eq!(
        state.step(Event::RunFinished(Completion::SpawnFailed(String::from("denied")))),
        Ok(reaction(
            Report::SpawnFailed { stage: Stage::Run, reason: String::from("denied") },
            Command::AwaitChange
        ))
    );
    assert_eq!(state.phase, Phase::Idle);
}

#[test]
fn watch_error_is_reported_and_the_loop_keeps_waiting() {
    let mut state = new_loop(1);
    let before = state;
    assert_eq!(
        state.step(Event::WatchError(String::from("queue overflow"))),
        Ok(reaction(Report::WatchError(String::from("queue overflow")), Command::AwaitChange))
    );
    assert_eq!(state, before);
    assert_eq!(
        state.step(Event::Change { at: 3 }),
        Ok(reaction(Report::ChangeDetected, Command::Build))
    );
}

#[test]
fn closed_channel_stops_the_loop_for_good() {
    let mut state = new_loop(1);
    assert_eq!(
        state.step(Event::ChannelClosed),
        Ok(reaction(Report::ChannelClosed, Command::Stop))
    );
    assert_eq!(state.phase, Phase::Stopped);
    assert!(!state.is_busy());
    let stopped = state;
    let events = [
        Event::Change { at: 5_000 },
        Event::WatchError(String::new()),
        Event::ChannelClosed,
        Event::BuildFinished(exited(true, b"", b"")),
        Event::ManifestRead(None),
        Event::RunFinished(exited(true, b"", b"")),
    ];
    for event in events {
        assert_eq!(state.step(event), Err(StepError::UnexpectedEvent));
        assert_eq!(state, stopped);
    }
}

#[test]
fn only_the_event_that_a_phase_waits_for_is_taken() {
    let events = || {
        vec![
            Event::Change { at: 9_000 },
            Event::WatchError(String::from("w")),
            Event::ChannelClosed,
            Event::BuildFinished(exited(true, b"", b"")),
            Event::ManifestRead(Some(String::from(DEMO_MANIFEST))),
            Event::RunFinished(exited(true, b"", b"")),
        ]
    };
    let phases = [
        (Phase::Idle, [true, true, true, false, false, false]),
        (Phase::Building, [false, false, false, true, false, false]),
        (Phase::Locating, [false, false, false, false, true, false]),
        (Phase::Running, [false, false, false, false, false, true]),
        (Phase::Stopped, [false, false, false, false, false, false]),
    ];
    for (phase, expected) in phases {
        for (event, taken) in events().into_iter().zip(expected) {
            let before = ControlLoop {
                interval: 1_000,
                platform: Platform::Unix,
                debounce: DebounceState { last_accepted_at: Some(0) },
                phase,
            };
            let mut state = before;
            let outcome = state.step(event);
            assert_eq!(outcome.is_ok(), taken);
            if !taken {
                assert_eq!(outcome, Err(StepError::UnexpectedEvent));
                assert_eq!(state, before);
            }
        }
    }
}

#[test]
fn a_change_during_a_pipeline_is_not_taken() {
    let mut state = new_loop(0);
    state.step(Event::Change { at: 0 }).unwrap();
    assert_eq!(state.step(Event::Change { at: 10_000 }), Err(StepError::UnexpectedEvent));
    assert_eq!(state.phase, Phase::Building);
    assert_eq!(state.debounce.last_accepted_at, Some(0));
}

#[test]
fn busy_from_accepted_change_until_the_pipeline_ends() {
    let mut state = new_loop(1);
    assert!(!state.is_busy());
    state.step(Event::Change { at: 0 }).unwrap();
    assert!(state.is_busy());
    state.step(Event::BuildFinished(exited(true, b"", b""))).unwrap();
    assert!(state.is_busy());
    state.step(Event::ManifestRead(Some(String::from(DEMO_MANIFEST)))).unwrap();
    assert!(state.is_busy());
    state.step(Event::RunFinished(exited(true, b"", b""))).unwrap();
    assert!(!state.is_busy());
}

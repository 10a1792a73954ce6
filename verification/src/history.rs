//! What holds of the control loop, step by step and over whole histories.
//!
//! A history is a sequence of events handed to the loop in order. An event
//! that the loop does not wait for in its phase gets no reaction and
//! changes nothing, so a history may hold anything.

use crate::control::{
    expects, in_phase, in_pipeline, initial, next, on_change, CommandView, ControlLoop, EventView,
    Phase, ReactionView, ReportView,
};
use crate::debounce::{admits, after};
use crate::locator::{located, Platform};
use crate::process::{run_outcome_of, BuildOutcomeView, CompletionView, ProcessOutputView};
use vstd::prelude::*;

verus! {

/// Whether `state` is one that a loop can be in: a pipeline is in flight
/// only after a change has been accepted.
pub open spec fn well_formed(state: ControlLoop) -> bool {
    in_pipeline(state.phase) ==> state.debounce.last_accepted_at is Some
}

/// How many of the reactions to `events`, handed in order to a loop that
/// starts in `state`, are `wanted`. An event that is not expected gets no
/// reaction and leaves the loop as it was.
pub open spec fn count_reactions(
    state: ControlLoop,
    events: Seq<EventView>,
    wanted: spec_fn(ReactionView) -> bool,
) -> nat
    decreases events.len(),
{
    if events.len() == 0 {
        0
    } else {
        match next(state, events[0]) {
            None => count_reactions(state, events.drop_first(), wanted),
            Some((then, reaction)) => {
                let one: nat = if wanted(reaction) {
                    1
                } else {
                    0
                };
                one + count_reactions(then, events.drop_first(), wanted)
            },
        }
    }
}

/// The state of a loop that starts in `state` once `events` have been
/// handed to it in order.
pub open spec fn state_after(state: ControlLoop, events: Seq<EventView>) -> ControlLoop
    decreases events.len(),
{
    if events.len() == 0 {
        state
    } else {
        match next(state, events[0]) {
            None => state_after(state, events.drop_first()),
            Some((then, _)) => state_after(then, events.drop_first()),
        }
    }
}

/// The reactions that ask for a build.
pub open spec fn asks_for_build() -> spec_fn(ReactionView) -> bool {
    |reaction: ReactionView| reaction.command is Build
}

/// The reactions that report a successful build.
pub open spec fn reports_successful_build() -> spec_fn(ReactionView) -> bool {
    |reaction: ReactionView| reaction.report == ReportView::Built(BuildOutcomeView::Success)
}

/// The reactions that ask for the program to be run.
pub open spec fn asks_for_launch() -> spec_fn(ReactionView) -> bool {
    |reaction: ReactionView| reaction.command is Launch
}

/// How often the loop asks for a build while `events` are handed to it.
pub open spec fn builds_started(state: ControlLoop, events: Seq<EventView>) -> nat {
    count_reactions(state, events, asks_for_build())
}

/// How often the loop reports a successful build while `events` are handed
/// to it.
pub open spec fn builds_succeeded(state: ControlLoop, events: Seq<EventView>) -> nat {
    count_reactions(state, events, reports_successful_build())
}

/// How often the loop asks for the program to be run while `events` are
/// handed to it.
pub open spec fn launches(state: ControlLoop, events: Seq<EventView>) -> nat {
    count_reactions(state, events, asks_for_launch())
}

/// The loop as it starts is well formed.
pub proof fn lemma_initial_well_formed(interval: u64, platform: Platform)
    ensures
        well_formed(initial(interval, platform)),
        initial(interval, platform).phase is Idle,
{
}

/// A step keeps the loop well formed, and never touches the interval or
/// the platform.
pub proof fn lemma_step_preserves_well_formed(state: ControlLoop, event: EventView)
    requires
        well_formed(state),
    ensures
        next(state, event) matches Some((then, _)) ==> {
            &&& well_formed(then)
            &&& then.interval == state.interval
            &&& then.platform == state.platform
        },
{
}

/// A step is taken exactly on the events that the phase waits for.
pub proof fn lemma_step_taken_when_expected(state: ControlLoop, event: EventView)
    ensures
        next(state, event) is Some <==> expects(state.phase, event),
{
}

/// An idle loop starts a build exactly on the changes that the debounce
/// filter lets through, and remembers such a change as the last accepted.
pub proof fn lemma_build_starts_when_filter_admits(state: ControlLoop, at: u64)
    requires
        state.phase is Idle,
    ensures
        next(state, EventView::Change { at }) matches Some((then, reaction)) && {
            &&& reaction.command is Build <==> admits(state.debounce, at, state.interval)
            &&& then.debounce == after(state.debounce, at, state.interval)
            &&& admits(state.debounce, at, state.interval) ==> then.phase is Building
            &&& !admits(state.debounce, at, state.interval) ==> then == state
                && reaction.command is AwaitChange
        },
{
}

/// The first change that reaches a loop is accepted, whatever the interval.
pub proof fn lemma_first_change_starts_build(interval: u64, platform: Platform, at: u64)
    ensures
        next(initial(interval, platform), EventView::Change { at }) matches Some((then, reaction))
            && reaction.command is Build && then.phase is Building
            && then.debounce.last_accepted_at == Some(at),
{
}

/// One pipeline at a time: a build is asked for only by an idle loop, on a
/// change.
pub proof fn lemma_build_only_from_idle(state: ControlLoop, event: EventView)
    requires
        next(state, event) matches Some((_, reaction)) && reaction.command is Build,
    ensures
        state.phase is Idle,
        event is Change,
{
}

/// A build that exits without success is not followed by a run: the loop
/// goes back to waiting and reports the failure with what the build tool
/// wrote to its standard error.
pub proof fn lemma_failed_build_is_reported_not_run(
    state: ControlLoop,
    output: ProcessOutputView,
)
    requires
        state.phase is Building,
        !output.exit_success,
    ensures
        next(state, EventView::BuildFinished(CompletionView::Exited(output))) == Some(
            (
                in_phase(state, Phase::Idle),
                ReactionView {
                    report: ReportView::Built(BuildOutcomeView::Failure(output.stderr)),
                    command: CommandView::AwaitChange,
                },
            ),
        ),
{
}

/// A build that exits with success sends the loop on to the run stage,
/// which begins by reading the manifest.
pub proof fn lemma_successful_build_enters_run_stage(
    state: ControlLoop,
    output: ProcessOutputView,
)
    requires
        state.phase is Building,
        output.exit_success,
    ensures
        next(state, EventView::BuildFinished(CompletionView::Exited(output))) == Some(
            (
                in_phase(state, Phase::Locating),
                ReactionView {
                    report: ReportView::Built(BuildOutcomeView::Success),
                    command: CommandView::ReadManifest,
                },
            ),
        ),
{
}

/// What is launched is what the manifest just read names: the path depends
/// on that text and the platform alone, not on anything that the loop has
/// seen before. Where the text names nothing, nothing is launched and the
/// failure to locate is reported as such.
pub proof fn lemma_launch_uses_manifest_just_read(state: ControlLoop, manifest: Option<Seq<char>>)
    requires
        state.phase is Locating,
    ensures
        next(state, EventView::ManifestRead(manifest)) matches Some((then, reaction)) && (
        match located(manifest, state.platform) {
            Ok(path) => then.phase is Running && reaction.command == CommandView::Launch(path),
            Err(error) => then.phase is Idle && reaction.command is AwaitChange && reaction.report
                == ReportView::LocateFailed(error),
        }),
{
}

/// A run is asked for only in the run stage, on the reading of a manifest
/// that names an executable; and the run stage is entered only from a
/// build that exited with success.
pub proof fn lemma_launch_needs_successful_build(state: ControlLoop, event: EventView)
    ensures
        next(state, event) matches Some((_, reaction)) && reaction.command is Launch ==> {
            &&& state.phase is Locating
            &&& event matches EventView::ManifestRead(manifest)
            &&& located(manifest, state.platform) is Ok
        },
        next(state, event) matches Some((then, _)) && then.phase is Locating ==> {
            &&& state.phase is Building
            &&& event matches EventView::BuildFinished(CompletionView::Exited(output))
            &&& output.exit_success
        },
{
}

/// Whatever the program's exit status, a finished run is relayed and the
/// loop goes back to waiting.
pub proof fn lemma_run_returns_to_idle(state: ControlLoop, completion: CompletionView)
    requires
        state.phase is Running,
    ensures
        next(state, EventView::RunFinished(completion)) matches Some((then, reaction)) && {
            &&& then == in_phase(state, Phase::Idle)
            &&& reaction.command is AwaitChange
            &&& completion matches CompletionView::Exited(output) ==> reaction.report
                == ReportView::Ran(run_outcome_of(output))
        },
{
}

/// No fault of a cycle ends the loop: it stops only when the notification
/// channel is closed, and then takes no further step.
pub proof fn lemma_stops_only_on_closed_channel(state: ControlLoop, event: EventView)
    ensures
        next(state, event) matches Some((then, reaction)) ==> {
            &&& then.phase is Stopped <==> event is ChannelClosed
            &&& reaction.command is Stop <==> event is ChannelClosed
        },
        state.phase is Stopped ==> next(state, event) is None,
{
}

/// Over any sequence of events, the program is run at most once for each
/// build that succeeded: every run is paid for by a successful build of
/// its own, and a failed build pays for none.
pub proof fn lemma_runs_follow_successful_builds(state: ControlLoop, events: Seq<EventView>)
    ensures
        launches(state, events) <= builds_succeeded(state, events) + if state.phase is Locating {
            1nat
        } else {
            0nat
        },
    decreases events.len(),
{
    if events.len() > 0 {
        match next(state, events[0]) {
            None => {
                lemma_runs_follow_successful_builds(state, events.drop_first());
            },
            Some((then, reaction)) => {
                lemma_runs_follow_successful_builds(then, events.drop_first());
            },
        }
    }
}

/// Over any sequence of events, no more builds succeed than were started,
/// counting one that was under way at the beginning.
pub proof fn lemma_successes_follow_builds(state: ControlLoop, events: Seq<EventView>)
    ensures
        builds_succeeded(state, events) <= builds_started(state, events) + if state.phase
            is Building {
            1nat
        } else {
            0nat
        },
    decreases events.len(),
{
    if events.len() > 0 {
        match next(state, events[0]) {
            None => {
                lemma_successes_follow_builds(state, events.drop_first());
            },
            Some((then, reaction)) => {
                lemma_successes_follow_builds(then, events.drop_first());
            },
        }
    }
}

/// Handing in `first` and then `second` counts as handing in one after the
/// other: the second stretch starts where the first left the loop.
pub proof fn lemma_count_in_two_stretches(
    state: ControlLoop,
    first: Seq<EventView>,
    second: Seq<EventView>,
    wanted: spec_fn(ReactionView) -> bool,
)
    ensures
        count_reactions(state, first + second, wanted) == count_reactions(state, first, wanted)
            + count_reactions(state_after(state, first), second, wanted),
        state_after(state, first + second) == state_after(state_after(state, first), second),
    decreases first.len(),
{
    if first.len() == 0 {
        assert(first + second =~= second);
    } else {
        let all = first + second;
        assert(all[0] == first[0]);
        assert(all.drop_first() =~= first.drop_first() + second);
        match next(state, first[0]) {
            None => {
                lemma_count_in_two_stretches(state, first.drop_first(), second, wanted);
            },
            Some((then, _)) => {
                lemma_count_in_two_stretches(then, first.drop_first(), second, wanted);
            },
        }
    }
}

/// While no change is handed in, no build is started and the debounce
/// filter keeps what it remembers.
pub proof fn lemma_no_change_no_build(state: ControlLoop, events: Seq<EventView>)
    requires
        forall|i: int| 0 <= i < events.len() ==> !(#[trigger] events[i] is Change),
    ensures
        builds_started(state, events) == 0,
        state_after(state, events).debounce == state.debounce,
        state_after(state, events).interval == state.interval,
    decreases events.len(),
{
    if events.len() > 0 {
        let rest = events.drop_first();
        assert(!(events[0] is Change));
        assert forall|i: int| 0 <= i < rest.len() implies !(#[trigger] rest[i] is Change) by {
            assert(rest[i] == events[i + 1]);
        }
        match next(state, events[0]) {
            None => {
                lemma_no_change_no_build(state, rest);
            },
            Some((then, _)) => {
                lemma_no_change_no_build(then, rest);
            },
        }
    }
}

/// Two changes reach a loop that has seen none; between them the loop is
/// handed no other change and is idle again when the second one comes.
/// Then one build is started where the second change comes less than the
/// debounce interval after the first, and two are started otherwise.
pub proof fn lemma_two_changes(
    interval: u64,
    platform: Platform,
    first: u64,
    second: u64,
    between: Seq<EventView>,
)
    requires
        forall|i: int| 0 <= i < between.len() ==> !(#[trigger] between[i] is Change),
        state_after(
            initial(interval, platform),
            seq![EventView::Change { at: first }] + between,
        ).phase is Idle,
    ensures
        builds_started(
            initial(interval, platform),
            seq![EventView::Change { at: first }] + between + seq![
                EventView::Change { at: second },
            ],
        ) == if second - first < interval {
            1nat
        } else {
            2nat
        },
{
    let start = initial(interval, platform);
    let head = seq![EventView::Change { at: first }];
    let tail = seq![EventView::Change { at: second }];
    let building = next(start, head[0])->Some_0.0;
    assert(head.drop_first() =~= Seq::<EventView>::empty());
    assert(tail.drop_first() =~= Seq::<EventView>::empty());
    assert(state_after(start, head) == building && builds_started(start, head) == 1) by {
        assert(state_after(building, head.drop_first()) == building);
        assert(count_reactions(building, head.drop_first(), asks_for_build()) == 0);
    }
    lemma_no_change_no_build(building, between);
    lemma_count_in_two_stretches(start, head, between, asks_for_build());
    let idle = state_after(start, head + between);
    assert(idle.debounce.last_accepted_at == Some(first));
    assert(idle.interval == interval);
    lemma_count_in_two_stretches(start, head + between, tail, asks_for_build());
    assert(builds_started(idle, tail) == if second - first < interval {
        0nat
    } else {
        1nat
    }) by {
        let then = next(idle, tail[0])->Some_0.0;
        assert(next(idle, tail[0]) == Some(on_change(idle, second)));
        assert(count_reactions(then, tail.drop_first(), asks_for_build()) == 0);
    }
}

/// While an idle loop is handed no change, it runs nothing.
pub proof fn lemma_no_change_no_launch(state: ControlLoop, events: Seq<EventView>)
    requires
        state.phase is Idle || state.phase is Stopped,
        forall|i: int| 0 <= i < events.len() ==> !(#[trigger] events[i] is Change),
    ensures
        launches(state, events) == 0,
    decreases events.len(),
{
    if events.len() > 0 {
        let rest = events.drop_first();
        assert(!(events[0] is Change));
        assert forall|i: int| 0 <= i < rest.len() implies !(#[trigger] rest[i] is Change) by {
            assert(rest[i] == events[i + 1]);
        }
        match next(state, events[0]) {
            None => {
                lemma_no_change_no_launch(state, rest);
            },
            Some((then, _)) => {
                lemma_no_change_no_launch(then, rest);
            },
        }
    }
}

/// A build that exits without success triggers no run: whatever is handed
/// to the loop afterwards, nothing is launched until a new change has
/// started a new build.
pub proof fn lemma_failed_build_launches_nothing(
    state: ControlLoop,
    output: ProcessOutputView,
    afterwards: Seq<EventView>,
)
    requires
        state.phase is Building,
        !output.exit_success,
        forall|i: int| 0 <= i < afterwards.len() ==> !(#[trigger] afterwards[i] is Change),
    ensures
        launches(
            state,
            seq![EventView::BuildFinished(CompletionView::Exited(output))] + afterwards,
        ) == 0,
{
    let failed = seq![EventView::BuildFinished(CompletionView::Exited(output))];
    let idle = in_phase(state, Phase::Idle);
    assert(failed.drop_first() =~= Seq::<EventView>::empty());
    assert(state_after(state, failed) == idle && launches(state, failed) == 0) by {
        assert(state_after(idle, failed.drop_first()) == idle);
        assert(count_reactions(idle, failed.drop_first(), asks_for_launch()) == 0);
    }
    lemma_count_in_two_stretches(state, failed, afterwards, asks_for_launch());
    lemma_no_change_no_launch(idle, afterwards);
}

/// A build that exits with success is followed by exactly one run, of the
/// executable that the manifest read at that moment names: the loop asks
/// for the manifest, launches what it locates in it, and is idle again
/// once the run has ended.
pub proof fn lemma_successful_build_runs_once(
    state: ControlLoop,
    output: ProcessOutputView,
    manifest: Option<Seq<char>>,
    run: CompletionView,
)
    requires
        state.phase is Building,
        output.exit_success,
        located(manifest, state.platform) is Ok,
    ensures
        ({
            let built = EventView::BuildFinished(CompletionView::Exited(output));
            let read = EventView::ManifestRead(manifest);
            let ran = EventView::RunFinished(run);
            let locating = in_phase(state, Phase::Locating);
            let running = in_phase(state, Phase::Running);
            &&& next(state, built) matches Some((then, reaction)) && then == locating
                && reaction.command is ReadManifest
            &&& next(locating, read) matches Some((then, reaction)) && then == running
                && reaction.command == CommandView::Launch(
                located(manifest, state.platform)->Ok_0,
            )
            &&& next(running, ran) matches Some((then, reaction)) && then == in_phase(
                state,
                Phase::Idle,
            ) && reaction.command is AwaitChange
            &&& launches(state, seq![built, read, ran]) == 1
            &&& state_after(state, seq![built, read, ran]) == in_phase(state, Phase::Idle)
        }),
{
    let built = EventView::BuildFinished(CompletionView::Exited(output));
    let read = EventView::ManifestRead(manifest);
    let ran = EventView::RunFinished(run);
    let locating = in_phase(state, Phase::Locating);
    let running = in_phase(state, Phase::Running);
    let idle = in_phase(state, Phase::Idle);
    let all = seq![built, read, ran];
    let two = all.drop_first();
    let one = two.drop_first();
    let none = one.drop_first();
    assert(two =~= seq![read, ran]);
    assert(one =~= seq![ran]);
    assert(none =~= Seq::<EventView>::empty());
    assert(count_reactions(idle, none, asks_for_launch()) == 0);
    assert(state_after(idle, none) == idle);
    assert(count_reactions(running, one, asks_for_launch()) == 0);
    assert(state_after(running, one) == idle);
    assert(count_reactions(locating, two, asks_for_launch()) == 1);
    assert(state_after(locating, two) == idle);
}

} // verus!

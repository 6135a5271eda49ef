//! What holds of every run of the launcher, proved of the model in `model`.
//!
//! A run is a start state and the events handed to it, one after another.
//! `state_after` gives the state once the first `k` events were handled,
//! `step_at` the step taken in answer to event `k`.

use crate::consent::decided;
use crate::consent::InstallDecision;
use crate::model::first_step;
use crate::model::initial;
use crate::model::is_installing;
use crate::model::is_preparing;
use crate::model::expects;
use crate::model::next;
use crate::model::well_formed;
use crate::model::LauncherView;
use crate::model::Phase;
use crate::paths::is_first_found;
use crate::paths::parent_path;
use crate::probe::classified;
use crate::probe::ProbeResult;
use crate::probe::ProbeRun;
use crate::probe::INTERPRETER;
use crate::protocol::ActionView;
use crate::protocol::EventView;
use crate::protocol::LocationView;
use crate::protocol::StepView;
use crate::supervisor::child_arguments;
use crate::supervisor::exit_status;
use crate::supervisor::relayed_log;
use crate::supervisor::ChildLine;
use crate::supervisor::FAILURE_STATUS;
use vstd::prelude::*;

verus! {

/// The state once the first `k` of `events` were handled, starting from `s`.
pub open spec fn state_after(s: LauncherView, events: Seq<EventView>, k: int) -> LauncherView
    decreases k,
{
    if k <= 0 {
        s
    } else {
        next(state_after(s, events, k - 1), events[k - 1]).0
    }
}

/// The step taken in answer to event `k` of `events`, starting from `s`.
pub open spec fn step_at(s: LauncherView, events: Seq<EventView>, k: int) -> StepView {
    next(state_after(s, events, k), events[k]).1
}

/// Whether `action` is part of an installation: it reads the manifest,
/// writes or deletes a file, or runs the installer.
pub open spec fn is_install_action(action: ActionView) -> bool {
    ||| action is ReadFile
    ||| action is WriteFile
    ||| action is RunInstaller
    ||| action is RemoveFile
}

/// Whether `event` is the user's consent.
pub open spec fn approves(event: EventView) -> bool {
    event matches EventView::PromptFinished { run } && decided(ProbeResult::Missing, run)
        == InstallDecision::UserApproved
}

/// The most steps it takes from `phase` until the runtime is started.
pub open spec fn steps_to_launch(phase: Phase) -> nat {
    match phase {
        Phase::Probing => 9,
        Phase::Consenting => 8,
        Phase::FindingManifest => 7,
        Phase::ReadingManifest => 6,
        Phase::WritingManifest => 5,
        Phase::WritingScript => 4,
        Phase::Installing => 3,
        Phase::RemovingScript => 2,
        Phase::RemovingManifest => 1,
        _ => 0,
    }
}

/// The log once `step` was taken: its messages are appended, then its
/// action does what it does to the log. Emptying the log empties it, and
/// while the runtime is supervised the messages for its `output` arrive.
pub open spec fn log_after_step(
    log: Seq<Seq<char>>,
    step: StepView,
    output: Seq<ChildLine>,
) -> Seq<Seq<char>> {
    let written = log + step.log;
    match step.action {
        ActionView::ResetLog => Seq::empty(),
        ActionView::Supervise => written + relayed_log(output),
        _ => written,
    }
}

/// The log of a run that found `before` in it, once the opening step and the
/// steps in answer to the first `k` of `events` were taken.
pub open spec fn log_after(
    before: Seq<Seq<char>>,
    events: Seq<EventView>,
    output: Seq<ChildLine>,
    k: int,
) -> Seq<Seq<char>>
    decreases k,
{
    if k <= 0 {
        log_after_step(before, first_step(), output)
    } else {
        log_after_step(
            log_after(before, events, output, k - 1),
            step_at(initial(), events, k - 1),
            output,
        )
    }
}

/// A run starts well-formed, and whatever the state and the event, the next
/// state is well-formed.
pub proof fn states_stay_well_formed(s: LauncherView, event: EventView)
    ensures
        well_formed(initial()),
        well_formed(next(s, event).0),
{
}

/// The runtime's directory is settled once: where a state holds one, no
/// event changes it, nor anything else that the run knows of its places.
pub proof fn resolved_backend_is_never_changed(s: LauncherView, event: EventView)
    requires
        s.context.backend is Some,
    ensures
        next(s, event).0.context == s.context,
{
}

/// While the candidates before the first existing one are answered, the
/// launcher waits for the next of them, and knows what it knew.
proof fn resolving_goes_in_order(
    s: LauncherView,
    events: Seq<EventView>,
    found: Seq<bool>,
    index: int,
    j: int,
)
    requires
        well_formed(s),
        s.phase == (Phase::Resolving { next: 0 }),
        s.context.candidates.len() <= usize::MAX,
        0 <= index < s.context.candidates.len(),
        index < found.len(),
        index < events.len(),
        forall|i: int| 0 <= i < index ==> !found[i],
        forall|i: int| 0 <= i <= index ==> events[i] == (EventView::Exists { found: found[i] }),
        0 <= j <= index,
    ensures
        state_after(s, events, j) == (LauncherView {
            phase: Phase::Resolving { next: j as usize },
            ..s
        }),
    decreases j,
{
    if j > 0 {
        resolving_goes_in_order(s, events, found, index, j - 1);
    }
}

/// Of the candidates, the first that exists is settled on, in the order of
/// the list and whatever the later ones answer: the launcher asks for the
/// candidates one by one up to that one, takes it for the runtime's
/// directory and its parent for the working directory, and goes on to the
/// probe. Only where that candidate has no parent does the run fail
/// instead; no other candidate is taken in either case.
pub proof fn first_existing_candidate_is_settled(
    s: LauncherView,
    events: Seq<EventView>,
    found: Seq<bool>,
    index: int,
)
    requires
        well_formed(s),
        s.phase == (Phase::Resolving { next: 0 }),
        s.context.candidates.len() <= usize::MAX,
        index < s.context.candidates.len(),
        index < events.len(),
        is_first_found(found, index),
        forall|i: int| 0 <= i <= index ==> events[i] == (EventView::Exists { found: found[i] }),
    ensures
        forall|j: int|
            0 <= j < index ==> (#[trigger] step_at(s, events, j)).action
                == (ActionView::CheckExists { path: s.context.candidates[j + 1] }),
        match parent_path(s.context.candidates[index]) {
            Some(directory) => {
                &&& step_at(s, events, index).action is RunProbe
                &&& state_after(s, events, index + 1).phase == Phase::Probing
                &&& state_after(s, events, index + 1).context.backend == Some(
                    s.context.candidates[index],
                )
                &&& state_after(s, events, index + 1).context.working_directory == Some(
                    directory,
                )
            },
            None => {
                &&& step_at(s, events, index).action == (ActionView::Exit {
                    code: FAILURE_STATUS,
                })
                &&& state_after(s, events, index + 1).context.backend is None
            },
        },
        forall|k: int|
            index < k ==> (#[trigger] state_after(s, events, k)).context == state_after(
                s,
                events,
                index + 1,
            ).context,
{
    assert forall|j: int| 0 <= j < index implies (#[trigger] step_at(s, events, j)).action
        == (ActionView::CheckExists { path: s.context.candidates[j + 1] }) by {
        resolving_goes_in_order(s, events, found, index, j);
    }
    resolving_goes_in_order(s, events, found, index, index);
    assert forall|k: int| index < k implies (#[trigger] state_after(s, events, k)).context
        == state_after(s, events, index + 1).context by {
        context_stays_after(s, events, index + 1, k);
    }
}

/// From a point of a run at which the search for the runtime's directory
/// is over, what the run knows of its places stays as it is.
proof fn context_stays_after(s: LauncherView, events: Seq<EventView>, from: int, k: int)
    requires
        0 < from <= k,
        !crate::model::is_searching(state_after(s, events, from).phase),
    ensures
        state_after(s, events, k).context == state_after(s, events, from).context,
        !crate::model::is_searching(state_after(s, events, k).phase),
    decreases k - from,
{
    if k > from {
        context_stays_after(s, events, from, k - 1);
    }
}

/// Where no candidate exists, the run fails: once the last candidate is
/// answered the launcher leaves with the failure status, which is not zero.
/// Up to there it has done nothing but ask for the candidates, and after it
/// it writes nothing and does nothing but leave: no probe, no installation,
/// no start of the runtime.
pub proof fn no_candidate_means_failure(s: LauncherView, events: Seq<EventView>)
    requires
        well_formed(s),
        s.phase == (Phase::Resolving { next: 0 }),
        s.context.candidates.len() <= usize::MAX,
        s.context.candidates.len() <= events.len(),
        forall|i: int|
            0 <= i < s.context.candidates.len() ==> events[i] == (EventView::Exists {
                found: false,
            }),
    ensures
        FAILURE_STATUS != 0,
        forall|k: int|
            0 <= k < s.context.candidates.len() - 1 ==> (#[trigger] step_at(
                s,
                events,
                k,
            )).action is CheckExists,
        step_at(s, events, s.context.candidates.len() - 1).action == (ActionView::Exit {
            code: FAILURE_STATUS,
        }),
        forall|k: int|
            s.context.candidates.len() <= k ==> #[trigger] step_at(s, events, k) == (StepView {
                log: Seq::empty(),
                action: ActionView::Exit { code: FAILURE_STATUS },
            }),
{
    let n = s.context.candidates.len() as int;
    let found = Seq::new(events.len(), |i: int| false);
    assert forall|k: int| 0 <= k < n - 1 implies (#[trigger] step_at(
        s,
        events,
        k,
    )).action is CheckExists by {
        resolving_goes_in_order(s, events, found, n - 1, k);
    }
    resolving_goes_in_order(s, events, found, n - 1, n - 1);
    assert forall|k: int| n <= k implies #[trigger] step_at(s, events, k) == (StepView {
        log: Seq::empty(),
        action: ActionView::Exit { code: FAILURE_STATUS },
    }) by {
        stays_finished(s, events, n, k);
    }
}

/// A run that is over stays over, with the same status.
proof fn stays_finished(s: LauncherView, events: Seq<EventView>, from: int, k: int)
    requires
        0 < from <= k,
        state_after(s, events, from).phase is Finished,
    ensures
        state_after(s, events, k).phase == state_after(s, events, from).phase,
    decreases k - from,
{
    if k > from {
        stays_finished(s, events, from, k - 1);
    }
}

/// A run can be taken in two parts: the state after `from + k` events is the
/// state that the rest of the events leads to from the state after `from`.
pub proof fn runs_compose(s: LauncherView, events: Seq<EventView>, from: int, k: int)
    requires
        0 <= from,
        0 <= k,
        from + k <= events.len(),
    ensures
        state_after(s, events, from + k) == state_after(
            state_after(s, events, from),
            events.skip(from),
            k,
        ),
    decreases k,
{
    if k > 0 {
        runs_compose(s, events, from, k - 1);
        assert(events.skip(from)[k - 1] == events[from + k - 1]);
    }
}

/// A run in which no candidate exists fails before anything is started: from
/// the start of the run, once the log is emptied and the launcher's place is
/// known, four candidates are asked for; when none of them exists the
/// launcher leaves with the failure status, and no step of the run, before
/// or after, starts the probe, the dialog, an installation or the runtime.
pub proof fn run_without_backend_starts_nothing(
    events: Seq<EventView>,
    executable: LocationView,
    arguments: Seq<Seq<char>>,
    k: int,
)
    requires
        6 <= events.len(),
        events[0] == EventView::LogReset,
        events[1] == (EventView::Located { executable, arguments }),
        forall|i: int| 2 <= i < 6 ==> events[i] == (EventView::Exists { found: false }),
        0 <= k < events.len(),
    ensures
        step_at(initial(), events, 5).action == (ActionView::Exit { code: FAILURE_STATUS }),
        k >= 5 ==> step_at(initial(), events, k).action == (ActionView::Exit {
            code: FAILURE_STATUS,
        }),
        k < 5 ==> step_at(initial(), events, k).action is Locate || step_at(
            initial(),
            events,
            k,
        ).action is CheckExists,
{
    let located = state_after(initial(), events, 2);
    let rest = events.skip(2);
    assert(state_after(initial(), events, 1) == next(initial(), events[0]).0) by {
        assert(state_after(initial(), events, 0) == initial());
    }
    assert(located.phase == (Phase::Resolving { next: 0 }));
    assert(located.context.candidates.len() == 4);
    assert forall|i: int| 0 <= i < 4 implies rest[i] == (EventView::Exists {
        found: false,
    }) by {
        assert(rest[i] == events[i + 2]);
    }
    no_candidate_means_failure(located, rest);
    if k >= 2 {
        runs_compose(initial(), events, 2, k - 2);
        assert(rest[k - 2] == events[k]);
        assert(step_at(initial(), events, k) == step_at(located, rest, k - 2));
    }
    runs_compose(initial(), events, 2, 3);
    assert(rest[3] == events[5]);
    assert(step_at(initial(), events, 5) == step_at(located, rest, 3));
}

/// What the probe's result leads to: the user is asked if and only if a
/// package is missing; in the two other cases the runtime is started at
/// once.
pub proof fn probe_result_decides_the_next_action(s: LauncherView, run: ProbeRun)
    requires
        well_formed(s),
        s.phase is Probing,
    ensures
        classified(run) == ProbeResult::Missing <==> next(
            s,
            EventView::ProbeFinished { run },
        ).1.action is AskConsent,
        classified(run) != ProbeResult::Missing <==> next(
            s,
            EventView::ProbeFinished { run },
        ).1.action is Spawn,
{
}

/// Each step of the preparation either starts the runtime or leaves fewer
/// steps to go; it never ends the run.
proof fn preparation_advances(s: LauncherView, event: EventView)
    requires
        well_formed(s),
        is_preparing(s.phase),
        expects(s.phase, event),
    ensures
        next(s, event).1.action is Spawn || {
            &&& is_preparing(next(s, event).0.phase)
            &&& steps_to_launch(next(s, event).0.phase) < steps_to_launch(s.phase)
        },
        !(next(s, event).1.action is Exit),
{
}

/// Up to any point of the preparation, either the runtime was started, or
/// the preparation is still under way and as much nearer to its end, and the
/// run has not ended.
proof fn preparation_goes_on(s: LauncherView, events: Seq<EventView>, j: int) -> (k: int)
    requires
        well_formed(s),
        is_preparing(s.phase),
        0 <= j <= events.len(),
        forall|i: int|
            0 <= i < events.len() && is_preparing(state_after(s, events, i).phase) ==> expects(
                #[trigger] state_after(s, events, i).phase,
                events[i],
            ),
    ensures
        0 <= k <= j,
        forall|i: int| 0 <= i < k ==> !((#[trigger] step_at(s, events, i)).action is Exit),
        forall|i: int| 0 <= i < k ==> !((#[trigger] step_at(s, events, i)).action is Spawn),
        k < j ==> step_at(s, events, k).action is Spawn,
        k == j ==> {
            &&& well_formed(state_after(s, events, j))
            &&& is_preparing(state_after(s, events, j).phase)
            &&& steps_to_launch(state_after(s, events, j).phase) + j <= steps_to_launch(s.phase)
        },
    decreases j,
{
    if j == 0 {
        0
    } else {
        let k = preparation_goes_on(s, events, j - 1);
        if k < j - 1 {
            k
        } else {
            let before = state_after(s, events, j - 1);
            assert(expects(before.phase, events[j - 1]));
            preparation_advances(before, events[j - 1]);
            states_stay_well_formed(before, events[j - 1]);
            if step_at(s, events, j - 1).action is Spawn {
                j - 1
            } else {
                j
            }
        }
    }
}

/// Once the runtime's directory is settled, the start of the runtime is
/// always attempted: whatever the probe finds, whatever the user answers
/// and however the installation goes, within `steps_to_launch` steps the
/// launcher asks for the runtime to be started, and no step before that
/// ends the run. It holds of every run whose events answer the actions of
/// the preparation.
pub proof fn launch_is_always_attempted(s: LauncherView, events: Seq<EventView>) -> (k: int)
    requires
        well_formed(s),
        is_preparing(s.phase),
        steps_to_launch(s.phase) <= events.len(),
        forall|i: int|
            0 <= i < events.len() && is_preparing(state_after(s, events, i).phase) ==> expects(
                #[trigger] state_after(s, events, i).phase,
                events[i],
            ),
    ensures
        0 <= k < steps_to_launch(s.phase),
        step_at(s, events, k).action is Spawn,
        forall|i: int| 0 <= i < k ==> !((#[trigger] step_at(s, events, i)).action is Exit),
{
    preparation_goes_on(s, events, steps_to_launch(s.phase) as int)
}

/// Without the user's consent nothing is installed: in a run in which no
/// answer to the dialog is the affirmative one, no step reads the manifest,
/// writes or deletes a file, or runs the installer. It holds from every
/// state in which no installation is under way, the start of a run among
/// them.
pub proof fn nothing_is_installed_without_consent(
    s: LauncherView,
    events: Seq<EventView>,
    k: int,
)
    requires
        !is_installing(s.phase),
        0 <= k < events.len(),
        forall|i: int|
            0 <= i < events.len() ==> !((#[trigger] state_after(s, events, i)).phase is Consenting
                && approves(events[i])),
    ensures
        !is_install_action(step_at(s, events, k).action),
        !is_installing(state_after(s, events, k + 1).phase),
    decreases k,
{
    if k > 0 {
        nothing_is_installed_without_consent(s, events, k - 1);
    }
    let before = state_after(s, events, k);
    assert(!(before.phase is Consenting && approves(events[k])));
}

/// An answer that is not consent leads straight to the start of the
/// runtime.
pub proof fn refusal_leads_to_launch(s: LauncherView, event: EventView)
    requires
        well_formed(s),
        s.phase is Consenting,
        event is PromptFinished,
        !approves(event),
    ensures
        next(s, event).1.action is Spawn,
        next(s, event).0.phase is Spawning,
{
}

/// From the second state of a run on, the launcher holds the arguments it
/// was told, and never waits for them again.
proof fn arguments_are_kept(
    s: LauncherView,
    events: Seq<EventView>,
    executable: LocationView,
    arguments: Seq<Seq<char>>,
    k: int,
)
    requires
        well_formed(s),
        s.phase is Locating,
        0 < events.len(),
        events[0] == (EventView::Located { executable, arguments }),
        1 <= k,
    ensures
        state_after(s, events, k).arguments == arguments,
        !(state_after(s, events, k).phase is Locating),
        !(state_after(s, events, k).phase is Resetting),
    decreases k,
{
    if k > 1 {
        arguments_are_kept(s, events, executable, arguments, k - 1);
    } else {
        assert(state_after(s, events, 0) == s);
    }
}

/// The arguments given to the launcher reach the runtime unchanged and in
/// order: whenever a run starts the runtime, it starts the interpreter with
/// the module invocation followed by exactly the arguments that the
/// launcher was told it had been given.
pub proof fn arguments_are_passed_through(
    s: LauncherView,
    events: Seq<EventView>,
    executable: LocationView,
    arguments: Seq<Seq<char>>,
    k: int,
)
    requires
        well_formed(s),
        s.phase is Locating,
        0 <= k < events.len(),
        events[0] == (EventView::Located { executable, arguments }),
        step_at(s, events, k).action is Spawn,
    ensures
        step_at(s, events, k).action->Spawn_command.program == INTERPRETER@,
        step_at(s, events, k).action->Spawn_command.arguments == child_arguments(arguments),
        step_at(s, events, k).action->Spawn_command.arguments.skip(2) == arguments,
{
    if k > 0 {
        arguments_are_kept(s, events, executable, arguments, k);
    }
    assert(child_arguments(arguments).skip(2) =~= arguments);
}

/// The launcher leaves with the runtime's exit status, and with the failure
/// status where the runtime left none; and it keeps to that status whatever
/// it is handed afterwards.
pub proof fn exit_status_is_passed_on(s: LauncherView, code: Option<i32>, later: EventView)
    requires
        s.phase is Supervising,
    ensures
        next(s, EventView::ChildExited { code }).1.action == (ActionView::Exit {
            code: exit_status(code),
        }),
        code matches Some(status) ==> exit_status(code) == status,
        code is None ==> exit_status(code) == FAILURE_STATUS,
        next(next(s, EventView::ChildExited { code }).0, later).1.action == (ActionView::Exit {
            code: exit_status(code),
        }),
{
}

/// A run starts by emptying the log, so what a run leaves in the log does
/// not depend on what it found there.
pub proof fn log_does_not_depend_on_earlier_runs(
    first: Seq<Seq<char>>,
    second: Seq<Seq<char>>,
    events: Seq<EventView>,
    output: Seq<ChildLine>,
    k: int,
)
    ensures
        log_after(first, events, output, k) == log_after(second, events, output, k),
    decreases k,
{
    if k > 0 {
        log_does_not_depend_on_earlier_runs(first, second, events, output, k - 1);
    }
}

/// Running the launcher again, with everything going as before, leaves the
/// log as the run before left it: the log does not grow from run to run.
pub proof fn rerun_leaves_the_same_log(
    before: Seq<Seq<char>>,
    events: Seq<EventView>,
    output: Seq<ChildLine>,
    k: int,
)
    ensures
        log_after(log_after(before, events, output, k), events, output, k) == log_after(
            before,
            events,
            output,
            k,
        ),
{
    log_does_not_depend_on_earlier_runs(
        log_after(before, events, output, k),
        before,
        events,
        output,
        k,
    );
}

} // verus!

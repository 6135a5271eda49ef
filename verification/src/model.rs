//! The launcher as a state machine over plain values: from a state and an
//! event to the next state, the messages for the log and the next action.
//!
//! The order of a run: empty the log, find the launcher's own place, try the
//! candidates for the runtime's directory, probe the packages, ask the user
//! where one is missing, install where the user agrees, start the runtime,
//! relay its output, leave with its exit status. Only two things end a run
//! before the runtime was started: no candidate exists, or the one that
//! exists has no parent to start the runtime in.

use crate::command::CommandLineView;
use crate::consent::answer_of;
use crate::consent::is_affirmative;
use crate::consent::prompt_command_view;
use crate::consent::PromptRunView;
use crate::installer::installer_command_view;
use crate::installer::script_text;
use crate::installer::SCRIPT_NAME;
use crate::manifest::filtered_text;
use crate::manifest::install_target_path;
use crate::manifest::FILTERED_NAME;
use crate::manifest::MANIFEST_NAME;
use crate::messages::BACKEND_NOT_FOUND;
use crate::messages::CHECK_PATH;
use crate::messages::DECLINED;
use crate::messages::INSTALLING;
use crate::messages::MANIFEST_NOT_FOUND;
use crate::messages::MISSING;
use crate::messages::PROBE_NOT_RUN;
use crate::messages::PROBING;
use crate::messages::READY;
use crate::messages::RUNNING_SCRIPT;
use crate::messages::SPAWNED;
use crate::messages::STARTING;
use crate::messages::UNEXPECTED;
use crate::messages::WRITING_SCRIPT;
use crate::messages::checked_text;
use crate::messages::child_exited_text;
use crate::messages::dialog_failed_text;
use crate::messages::directory_at_text;
use crate::messages::executable_at_text;
use crate::messages::executable_unknown_text;
use crate::messages::found_backend_text;
use crate::messages::no_parent_text;
use crate::messages::not_removed_text;
use crate::messages::script_not_written_text;
use crate::messages::spawn_failed_text;
use crate::messages::starting_child_text;
use crate::messages::user_response_text;
use crate::messages::working_in_text;
use crate::paths::candidate_paths;
use crate::paths::directory_of;
use crate::paths::joined_path;
use crate::paths::parent_path;
use crate::paths::UNKNOWN_LOCATION;
use crate::probe::classified;
use crate::probe::probe_command_view;
use crate::probe::ProbeResult;
use crate::probe::ProbeRun;
use crate::protocol::ActionView;
use crate::protocol::EventView;
use crate::protocol::LocationView;
use crate::protocol::StepView;
use crate::supervisor::child_command_view;
use crate::supervisor::exit_status;
use crate::supervisor::FAILURE_STATUS;
use vstd::prelude::*;

verus! {

/// What the launcher is waiting for.
#[derive(Clone, Copy, Debug, PartialEq, Eq, Structural)]
pub enum Phase {
    /// For the log to be emptied.
    Resetting,
    /// For its own place and arguments.
    Locating,
    /// For whether the candidate at position `next` exists.
    Resolving { next: usize },
    /// For the probe to end.
    Probing,
    /// For the user's answer.
    Consenting,
    /// For whether the manifest exists.
    FindingManifest,
    /// For the manifest's text.
    ReadingManifest,
    /// For the filtered copy to be written.
    WritingManifest,
    /// For the installer script to be written.
    WritingScript,
    /// For the installer to end.
    Installing,
    /// For the installer script to be deleted.
    RemovingScript,
    /// For the filtered copy to be deleted.
    RemovingManifest,
    /// For the runtime to start.
    Spawning,
    /// For the runtime to end.
    Supervising,
    /// For nothing: the run is over, with exit status `code`.
    Finished { code: i32 },
}

/// What a run knows of its places, as plain sequences.
pub struct LaunchContextView {
    pub executable: Seq<char>,
    pub directory: Seq<char>,
    pub candidates: Seq<Seq<char>>,
    pub backend: Option<Seq<char>>,
    pub working_directory: Option<Seq<char>>,
}

/// The launcher's state, as plain sequences.
pub struct LauncherView {
    pub phase: Phase,
    pub context: LaunchContextView,
    pub arguments: Seq<Seq<char>>,
    pub filtered: bool,
}

/// The state before anything was done.
pub open spec fn initial() -> LauncherView {
    LauncherView {
        phase: Phase::Resetting,
        context: LaunchContextView {
            executable: Seq::empty(),
            directory: Seq::empty(),
            candidates: Seq::empty(),
            backend: None,
            working_directory: None,
        },
        arguments: Seq::empty(),
        filtered: false,
    }
}

/// The step that opens every run: nothing to write, the log to empty.
pub open spec fn first_step() -> StepView {
    StepView { log: Seq::empty(), action: ActionView::ResetLog }
}

/// Whether the installation is under way in `phase`.
pub open spec fn is_installing(phase: Phase) -> bool {
    ||| phase is FindingManifest
    ||| phase is ReadingManifest
    ||| phase is WritingManifest
    ||| phase is WritingScript
    ||| phase is Installing
    ||| phase is RemovingScript
    ||| phase is RemovingManifest
}

/// Whether the runtime's directory is settled in `phase` and the runtime not
/// yet started.
pub open spec fn is_preparing(phase: Phase) -> bool {
    ||| phase is Probing
    ||| phase is Consenting
    ||| is_installing(phase)
}

/// Whether `event` answers what the launcher is waiting for in `phase`.
pub open spec fn expects(phase: Phase, event: EventView) -> bool {
    match phase {
        Phase::Resetting => event is LogReset,
        Phase::Locating => event is Located,
        Phase::Resolving { .. } => event is Exists,
        Phase::Probing => event is ProbeFinished,
        Phase::Consenting => event is PromptFinished,
        Phase::FindingManifest => event is Exists,
        Phase::ReadingManifest => event is FileRead,
        Phase::WritingManifest => event is FileWritten,
        Phase::WritingScript => event is FileWritten,
        Phase::Installing => event is InstallerFinished,
        Phase::RemovingScript => event is FileRemoved,
        Phase::RemovingManifest => event is FileRemoved,
        Phase::Spawning => event is Spawned,
        Phase::Supervising => event is ChildExited,
        Phase::Finished { .. } => true,
    }
}

/// Whether the runtime's directory is still to be found in `phase`.
pub open spec fn is_searching(phase: Phase) -> bool {
    ||| phase is Resetting
    ||| phase is Locating
    ||| phase is Resolving
}

/// Whether the state holds what its phase needs: while the runtime's
/// directory is searched for, none is settled, and while resolving there is
/// a candidate to wait for; from then until the runtime has started, the
/// directory and its parent are settled.
pub open spec fn well_formed(s: LauncherView) -> bool {
    &&& s.phase matches Phase::Resolving { next } ==> next < s.context.candidates.len()
    &&& is_searching(s.phase) ==> {
        &&& s.context.backend is None
        &&& s.context.working_directory is None
    }
    &&& is_preparing(s.phase) || s.phase is Spawning ==> {
        &&& s.context.backend is Some
        &&& s.context.working_directory is Some
    }
}

/// `s` in another phase.
pub open spec fn moved(s: LauncherView, phase: Phase) -> LauncherView {
    LauncherView { phase, ..s }
}

/// The end of a run that cannot go on: the failure status, with `log` as
/// the reason.
pub open spec fn fail(s: LauncherView, log: Seq<Seq<char>>) -> (LauncherView, StepView) {
    (
        moved(s, Phase::Finished { code: FAILURE_STATUS }),
        StepView { log, action: ActionView::Exit { code: FAILURE_STATUS } },
    )
}

/// What becomes of a state and an event that do not fit each other.
pub open spec fn reject(s: LauncherView) -> (LauncherView, StepView) {
    fail(s, seq![UNEXPECTED@])
}

/// The start of the runtime, after `log`: with the launcher's own
/// arguments, in the parent of the runtime's directory.
pub open spec fn launch(s: LauncherView, log: Seq<Seq<char>>) -> (LauncherView, StepView) {
    (
        moved(s, Phase::Spawning),
        StepView {
            log: log.push(starting_child_text(s.arguments)),
            action: ActionView::Spawn {
                command: child_command_view(s.arguments, s.context.working_directory->0),
            },
        },
    )
}

/// The manifest's path.
pub open spec fn manifest_of(s: LauncherView) -> Seq<char> {
    joined_path(s.context.backend->0, MANIFEST_NAME@)
}

/// The path of the filtered copy.
pub open spec fn filtered_copy_of(s: LauncherView) -> Seq<char> {
    joined_path(s.context.backend->0, FILTERED_NAME@)
}

/// The path of the installer script.
pub open spec fn script_of(s: LauncherView) -> Seq<char> {
    joined_path(s.context.backend->0, SCRIPT_NAME@)
}

/// The log is empty: say that the run starts, and ask for the launcher's
/// place.
pub open spec fn on_reset(s: LauncherView) -> (LauncherView, StepView) {
    (moved(s, Phase::Locating), StepView { log: seq![STARTING@], action: ActionView::Locate })
}

/// The launcher's path: as told, or the current directory where it is
/// unknown.
pub open spec fn executable_of(executable: LocationView) -> Seq<char> {
    match executable {
        LocationView::Known { path } => path,
        LocationView::Unknown { .. } => UNKNOWN_LOCATION@,
    }
}

/// What is said of the launcher's place.
pub open spec fn located_log(executable: LocationView) -> Seq<Seq<char>> {
    let path = executable_of(executable);
    let places = seq![executable_at_text(path), directory_at_text(directory_of(path))];
    match executable {
        LocationView::Known { .. } => places,
        LocationView::Unknown { error } => seq![executable_unknown_text(error)] + places,
    }
}

/// The launcher's place is known: list the candidates and try the first.
pub open spec fn on_located(
    s: LauncherView,
    executable: LocationView,
    arguments: Seq<Seq<char>>,
) -> (LauncherView, StepView) {
    let path = executable_of(executable);
    let directory = directory_of(path);
    let candidates = candidate_paths(directory);
    (
        LauncherView {
            phase: Phase::Resolving { next: 0 },
            context: LaunchContextView {
                executable: path,
                directory,
                candidates,
                backend: None,
                working_directory: None,
            },
            arguments,
            filtered: false,
        },
        StepView {
            log: located_log(executable),
            action: ActionView::CheckExists { path: candidates[0] },
        },
    )
}

/// The candidate at `next` exists or not. The first that exists is settled
/// on and the probe run; after one that does not, the next is tried; after
/// the last, the run fails.
pub open spec fn on_candidate(s: LauncherView, next: usize, found: bool) -> (
    LauncherView,
    StepView,
) {
    let candidate = s.context.candidates[next as int];
    if found {
        match parent_path(candidate) {
            Some(directory) => (
                LauncherView {
                    phase: Phase::Probing,
                    context: LaunchContextView {
                        backend: Some(candidate),
                        working_directory: Some(directory),
                        ..s.context
                    },
                    ..s
                },
                StepView {
                    log: seq![found_backend_text(candidate), working_in_text(directory), PROBING@],
                    action: ActionView::RunProbe { command: probe_command_view() },
                },
            ),
            None => fail(s, seq![found_backend_text(candidate), no_parent_text(candidate)]),
        }
    } else if next + 1 < s.context.candidates.len() {
        (
            moved(s, Phase::Resolving { next: (next + 1) as usize }),
            StepView {
                log: seq![checked_text(candidate)],
                action: ActionView::CheckExists { path: s.context.candidates[next + 1] },
            },
        )
    } else {
        fail(s, seq![checked_text(candidate), BACKEND_NOT_FOUND@])
    }
}

/// The probe has ended. Where a package is missing the user is asked; in
/// the two other cases the runtime is started.
pub open spec fn on_probe(s: LauncherView, run: ProbeRun) -> (LauncherView, StepView) {
    match classified(run) {
        ProbeResult::Ready => launch(s, seq![READY@]),
        ProbeResult::Indeterminate => launch(s, seq![PROBE_NOT_RUN@]),
        ProbeResult::Missing => (
            moved(s, Phase::Consenting),
            StepView {
                log: seq![MISSING@],
                action: ActionView::AskConsent { command: prompt_command_view() },
            },
        ),
    }
}

/// The dialog has ended. Only the affirmative answer leads to the
/// installation, which begins with looking for the manifest; everything else
/// leads straight to the start of the runtime.
pub open spec fn on_prompt(s: LauncherView, run: PromptRunView) -> (LauncherView, StepView) {
    match run {
        PromptRunView::Failed { error } => launch(s, seq![dialog_failed_text(error)]),
        PromptRunView::Answered { output } => {
            let answer = answer_of(output);
            if is_affirmative(answer) {
                (
                    moved(s, Phase::FindingManifest),
                    StepView {
                        log: seq![user_response_text(answer), INSTALLING@],
                        action: ActionView::CheckExists { path: manifest_of(s) },
                    },
                )
            } else {
                launch(s, seq![user_response_text(answer), DECLINED@])
            }
        },
    }
}

/// The manifest exists or not. Without it nothing is installed.
pub open spec fn on_manifest_found(s: LauncherView, found: bool) -> (LauncherView, StepView) {
    if found {
        (
            moved(s, Phase::ReadingManifest),
            StepView { log: Seq::empty(), action: ActionView::ReadFile { path: manifest_of(s) } },
        )
    } else {
        launch(s, seq![MANIFEST_NOT_FOUND@])
    }
}

/// The installer script is to be written, for the filtered copy where there
/// is one and for the manifest itself where there is none.
pub open spec fn write_script(s: LauncherView, filtered: bool) -> (LauncherView, StepView) {
    (
        LauncherView { phase: Phase::WritingScript, filtered, ..s },
        StepView {
            log: seq![WRITING_SCRIPT@],
            action: ActionView::WriteFile {
                path: script_of(s),
                content: script_text(install_target_path(s.context.backend->0, filtered)),
            },
        },
    )
}

/// The manifest was read or not. What was read is filtered and the copy
/// written; where nothing was read there is no copy.
pub open spec fn on_manifest_read(s: LauncherView, content: Option<Seq<char>>) -> (
    LauncherView,
    StepView,
) {
    match content {
        Some(text) => (
            moved(s, Phase::WritingManifest),
            StepView {
                log: Seq::empty(),
                action: ActionView::WriteFile {
                    path: filtered_copy_of(s),
                    content: filtered_text(text),
                },
            },
        ),
        None => write_script(s, false),
    }
}

/// The filtered copy was written or not.
pub open spec fn on_manifest_written(s: LauncherView, error: Option<Seq<char>>) -> (
    LauncherView,
    StepView,
) {
    write_script(s, error is None)
}

/// What is left to do once the installer script is out of the way: delete
/// the filtered copy where there is one, then start the runtime.
pub open spec fn clean_up(s: LauncherView, log: Seq<Seq<char>>) -> (LauncherView, StepView) {
    if s.filtered {
        (
            moved(s, Phase::RemovingManifest),
            StepView { log, action: ActionView::RemoveFile { path: filtered_copy_of(s) } },
        )
    } else {
        launch(s, log)
    }
}

/// The installer script was written or not. Where it was, it is run.
pub open spec fn on_script_written(s: LauncherView, error: Option<Seq<char>>) -> (
    LauncherView,
    StepView,
) {
    match error {
        None => (
            moved(s, Phase::Installing),
            StepView {
                log: seq![RUNNING_SCRIPT@],
                action: ActionView::RunInstaller { command: installer_command_view(script_of(s)) },
            },
        ),
        Some(reason) => clean_up(s, seq![script_not_written_text(reason)]),
    }
}

/// The installer has ended, however it went: its script is deleted.
pub open spec fn on_installed(s: LauncherView) -> (LauncherView, StepView) {
    (
        moved(s, Phase::RemovingScript),
        StepView { log: Seq::empty(), action: ActionView::RemoveFile { path: script_of(s) } },
    )
}

/// What is said of a deletion: nothing where it went well.
pub open spec fn removal_log(path: Seq<char>, error: Option<Seq<char>>) -> Seq<Seq<char>> {
    match error {
        None => Seq::empty(),
        Some(reason) => seq![not_removed_text(path, reason)],
    }
}

/// The installer script was deleted or not.
pub open spec fn on_script_removed(s: LauncherView, error: Option<Seq<char>>) -> (
    LauncherView,
    StepView,
) {
    clean_up(s, removal_log(script_of(s), error))
}

/// The filtered copy was deleted or not.
pub open spec fn on_manifest_removed(s: LauncherView, error: Option<Seq<char>>) -> (
    LauncherView,
    StepView,
) {
    launch(s, removal_log(filtered_copy_of(s), error))
}

/// The runtime has started or not. Where it has not, the run fails.
pub open spec fn on_spawned(s: LauncherView, error: Option<Seq<char>>) -> (
    LauncherView,
    StepView,
) {
    match error {
        None => (
            moved(s, Phase::Supervising),
            StepView { log: seq![SPAWNED@], action: ActionView::Supervise },
        ),
        Some(reason) => fail(s, seq![spawn_failed_text(reason), CHECK_PATH@]),
    }
}

/// The runtime has ended: the launcher leaves with its status.
pub open spec fn on_child_exited(s: LauncherView, code: Option<i32>) -> (LauncherView, StepView) {
    (
        moved(s, Phase::Finished { code: exit_status(code) }),
        StepView {
            log: seq![child_exited_text(code)],
            action: ActionView::Exit { code: exit_status(code) },
        },
    )
}

/// The run is over: whatever comes, the launcher leaves with the same
/// status.
pub open spec fn on_finished(s: LauncherView, code: i32) -> (LauncherView, StepView) {
    (s, StepView { log: Seq::empty(), action: ActionView::Exit { code } })
}

/// The next state and the step to take, from a state and an event.
pub open spec fn next(s: LauncherView, event: EventView) -> (LauncherView, StepView) {
    if !well_formed(s) || !expects(s.phase, event) {
        reject(s)
    } else {
        match s.phase {
            Phase::Resetting => on_reset(s),
            Phase::Locating => on_located(s, event->executable, event->arguments),
            Phase::Resolving { next } => on_candidate(s, next, event->found),
            Phase::Probing => on_probe(s, event->ProbeFinished_run),
            Phase::Consenting => on_prompt(s, event->PromptFinished_run),
            Phase::FindingManifest => on_manifest_found(s, event->found),
            Phase::ReadingManifest => on_manifest_read(s, event->content),
            Phase::WritingManifest => on_manifest_written(s, event->FileWritten_error),
            Phase::WritingScript => on_script_written(s, event->FileWritten_error),
            Phase::Installing => on_installed(s),
            Phase::RemovingScript => on_script_removed(s, event->FileRemoved_error),
            Phase::RemovingManifest => on_manifest_removed(s, event->FileRemoved_error),
            Phase::Spawning => on_spawned(s, event->Spawned_error),
            Phase::Supervising => on_child_exited(s, event->ChildExited_code),
            Phase::Finished { code } => on_finished(s, code),
        }
    }
}

} // verus!

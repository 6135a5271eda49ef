//! The launcher: the state of a run and the step from one action to the
//! next.
//!
//! A caller drives it in a loop: append the step's messages to the log,
//! perform its action, hand the outcome to `step`. The launcher decides;
//! it reads no file and starts no process itself.

use crate::consent::decide_answer;
use crate::consent::prompt_command;
use crate::consent::read_answer;
use crate::consent::InstallDecision;
use crate::consent::PromptRun;
use crate::installer::installer_command;
use crate::installer::installer_script;
use crate::installer::installer_script_path;
use crate::manifest::DependencyManifest;
use crate::manifest::filtered_manifest_path;
use crate::manifest::install_target;
use crate::manifest::manifest_path;
use crate::messages;
use crate::model;
use crate::model::LaunchContextView;
use crate::model::LauncherView;
use crate::model::Phase;
use crate::paths::candidate_backend_paths;
use crate::paths::executable_directory;
use crate::paths::working_directory;
use crate::paths::UNKNOWN_LOCATION;
use crate::probe::classify;
use crate::probe::probe_command;
use crate::probe::ProbeResult;
use crate::probe::ProbeRun;
use crate::protocol::Action;
use crate::protocol::Event;
use crate::protocol::Location;
use crate::protocol::Step;
use crate::supervisor::child_command;
use crate::supervisor::launcher_exit_code;
use crate::supervisor::FAILURE_STATUS;
use vstd::prelude::*;

verus! {

/// What a run knows of its places.
#[derive(Clone, Debug, PartialEq, Eq)]
pub struct LaunchContext {
    /// The launcher's own path.
    pub executable: String,
    /// The directory of the launcher.
    pub directory: String,
    /// The candidates for the runtime's directory, the likeliest first.
    pub candidates: Vec<String>,
    /// The runtime's directory, once a candidate was found to exist.
    pub backend: Option<String>,
    /// The parent of the runtime's directory, in which the runtime is
    /// started.
    pub working_directory: Option<String>,
}

impl View for LaunchContext {
    type V = LaunchContextView;

    open spec fn view(&self) -> LaunchContextView {
        LaunchContextView {
            executable: self.executable@,
            directory: self.directory@,
            candidates: self.candidates.deep_view(),
            backend: self.backend.deep_view(),
            working_directory: self.working_directory.deep_view(),
        }
    }
}

/// The state of a run.
#[derive(Clone, Debug, PartialEq, Eq)]
pub struct Launcher {
    /// What the launcher is waiting for.
    pub phase: Phase,
    pub context: LaunchContext,
    /// The arguments that the launcher was given, to be handed on to the
    /// runtime.
    pub arguments: Vec<String>,
    /// Whether the filtered copy of the manifest was written.
    pub filtered: bool,
}

impl View for Launcher {
    type V = LauncherView;

    open spec fn view(&self) -> LauncherView {
        LauncherView {
            phase: self.phase,
            context: self.context@,
            arguments: self.arguments.deep_view(),
            filtered: self.filtered,
        }
    }
}

/// A log of one message.
fn one(message: String) -> (log: Vec<String>)
    ensures
        log.deep_view() == seq![message@],
{
    let mut log: Vec<String> = Vec::new();
    log.push(message);
    assert(log.deep_view() =~= seq![message@]);
    log
}

/// A log of two messages.
fn two(first: String, second: String) -> (log: Vec<String>)
    ensures
        log.deep_view() == seq![first@, second@],
{
    let mut log: Vec<String> = Vec::new();
    log.push(first);
    log.push(second);
    assert(log.deep_view() =~= seq![first@, second@]);
    log
}

/// A log of three messages.
fn three(first: String, second: String, third: String) -> (log: Vec<String>)
    ensures
        log.deep_view() == seq![first@, second@, third@],
{
    let mut log: Vec<String> = Vec::new();
    log.push(first);
    log.push(second);
    log.push(third);
    assert(log.deep_view() =~= seq![first@, second@, third@]);
    log
}

/// A log of no message.
fn none() -> (log: Vec<String>)
    ensures
        log.deep_view() == Seq::<Seq<char>>::empty(),
{
    let log: Vec<String> = Vec::new();
    assert(log.deep_view() =~= Seq::<Seq<char>>::empty());
    log
}

/// What is said of a deletion.
fn removal_log(path: &str, error: Option<String>) -> (log: Vec<String>)
    ensures
        log.deep_view() == model::removal_log(path@, error.deep_view()),
{
    match error {
        None => none(),
        Some(reason) => one(messages::not_removed(path, reason.as_str())),
    }
}

impl Launcher {
    /// A launcher at the start of a run, with the step that opens it: the
    /// log is emptied before anything is written to it.
    pub fn new() -> (start: (Launcher, Step))
        ensures
            start.0@ == model::initial(),
            start.1@ == model::first_step(),
    {
        let candidates: Vec<String> = Vec::new();
        let arguments: Vec<String> = Vec::new();
        assert(candidates.deep_view() =~= Seq::<Seq<char>>::empty());
        assert(arguments.deep_view() =~= Seq::<Seq<char>>::empty());
        (
            Launcher {
                phase: Phase::Resetting,
                context: LaunchContext {
                    executable: String::new(),
                    directory: String::new(),
                    candidates,
                    backend: None,
                    working_directory: None,
                },
                arguments,
                filtered: false,
            },
            Step { log: none(), action: Action::ResetLog },
        )
    }

    /// Whether the state holds what its phase needs.
    pub fn is_well_formed(&self) -> (r: bool)
        ensures
            r == model::well_formed(self@),
    {
        let settled = self.context.backend.is_some() && self.context.working_directory.is_some();
        let unsettled = self.context.backend.is_none()
            && self.context.working_directory.is_none();
        match self.phase {
            Phase::Resolving { next } => unsettled && next < self.context.candidates.len(),
            Phase::Resetting | Phase::Locating => unsettled,
            Phase::Supervising | Phase::Finished { .. } => true,
            _ => settled,
        }
    }

    /// The runtime's directory, once it is settled.
    pub fn resolved_backend(&self) -> (backend: Option<&String>)
        ensures
            backend.is_some() == self@.context.backend.is_some(),
            backend matches Some(path) ==> self@.context.backend == Some(path@),
    {
        self.context.backend.as_ref()
    }

    /// The exit status of the run, once it is over.
    pub fn exit_code(&self) -> (code: Option<i32>)
        ensures
            code == match self@.phase {
                Phase::Finished { code } => Some(code),
                _ => None,
            },
    {
        match self.phase {
            Phase::Finished { code } => Some(code),
            _ => None,
        }
    }

    /// The same state in another phase.
    fn moved(self, phase: Phase) -> (r: Launcher)
        ensures
            r@ == model::moved(self@, phase),
    {
        Launcher {
            phase,
            context: self.context,
            arguments: self.arguments,
            filtered: self.filtered,
        }
    }

    /// The runtime's directory.
    fn backend(&self) -> (path: &String)
        requires
            self@.context.backend is Some,
        ensures
            self@.context.backend == Some(path@),
    {
        self.context.backend.as_ref().unwrap()
    }

    // Each of the functions down to `step` takes the step that `model`
    // describes under the same name.

    fn fail(self, log: Vec<String>) -> (r: (Launcher, Step))
        ensures
            (r.0@, r.1@) == model::fail(self@, log.deep_view()),
    {
        (
            self.moved(Phase::Finished { code: FAILURE_STATUS }),
            Step { log, action: Action::Exit { code: FAILURE_STATUS } },
        )
    }

    fn reject(self) -> (r: (Launcher, Step))
        ensures
            (r.0@, r.1@) == model::reject(self@),
    {
        self.fail(one(String::from_str(messages::UNEXPECTED)))
    }

    fn launch(self, log: Vec<String>) -> (r: (Launcher, Step))
        requires
            self@.context.working_directory is Some,
        ensures
            (r.0@, r.1@) == model::launch(self@, log.deep_view()),
    {
        let mut log = log;
        let ghost before = log.deep_view();
        let message = messages::starting_child(&self.arguments);
        log.push(message);
        assert(log.deep_view() =~= before.push(message@));
        let directory = self.context.working_directory.as_ref().unwrap();
        let command = child_command(&self.arguments, directory.as_str());
        (self.moved(Phase::Spawning), Step { log, action: Action::Spawn { command } })
    }

    fn on_reset(self) -> (r: (Launcher, Step))
        ensures
            (r.0@, r.1@) == model::on_reset(self@),
    {
        (
            self.moved(Phase::Locating),
            Step { log: one(String::from_str(messages::STARTING)), action: Action::Locate },
        )
    }

    fn on_located(self, executable: Location, arguments: Vec<String>) -> (r: (Launcher, Step))
        ensures
            (r.0@, r.1@) == model::on_located(self@, executable@, arguments.deep_view()),
    {
        let mut log: Vec<String> = Vec::new();
        let path = match executable {
            Location::Known { path } => path,
            Location::Unknown { error } => {
                log.push(messages::executable_unknown(error.as_str()));
                String::from_str(UNKNOWN_LOCATION)
            },
        };
        let directory = executable_directory(path.as_str());
        log.push(messages::executable_at(path.as_str()));
        log.push(messages::directory_at(directory.as_str()));
        assert(log.deep_view() =~= model::located_log(executable@));
        let candidates = candidate_backend_paths(directory.as_str());
        let first = candidates[0].clone();
        (
            Launcher {
                phase: Phase::Resolving { next: 0 },
                context: LaunchContext {
                    executable: path,
                    directory,
                    candidates,
                    backend: None,
                    working_directory: None,
                },
                arguments,
                filtered: false,
            },
            Step { log, action: Action::CheckExists { path: first } },
        )
    }

    fn on_candidate(self, next: usize, found: bool) -> (r: (Launcher, Step))
        requires
            next < self.context.candidates.len(),
        ensures
            (r.0@, r.1@) == model::on_candidate(self@, next, found),
    {
        let candidate = self.context.candidates[next].clone();
        assert(candidate@ == self@.context.candidates[next as int]);
        if found {
            match working_directory(candidate.as_str()) {
                Some(directory) => {
                    let log = three(
                        messages::found_backend(candidate.as_str()),
                        messages::working_in(directory.as_str()),
                        String::from_str(messages::PROBING),
                    );
                    (
                        Launcher {
                            phase: Phase::Probing,
                            context: LaunchContext {
                                executable: self.context.executable,
                                directory: self.context.directory,
                                candidates: self.context.candidates,
                                backend: Some(candidate),
                                working_directory: Some(directory),
                            },
                            arguments: self.arguments,
                            filtered: self.filtered,
                        },
                        Step { log, action: Action::RunProbe { command: probe_command() } },
                    )
                },
                None => {
                    let log = two(
                        messages::found_backend(candidate.as_str()),
                        messages::no_parent(candidate.as_str()),
                    );
                    self.fail(log)
                },
            }
        } else if next + 1 < self.context.candidates.len() {
            let path = self.context.candidates[next + 1].clone();
            assert(path@ == self@.context.candidates[next + 1]);
            (
                self.moved(Phase::Resolving { next: next + 1 }),
                Step {
                    log: one(messages::checked(candidate.as_str())),
                    action: Action::CheckExists { path },
                },
            )
        } else {
            let log = two(
                messages::checked(candidate.as_str()),
                String::from_str(messages::BACKEND_NOT_FOUND),
            );
            self.fail(log)
        }
    }

    fn on_probe(self, run: ProbeRun) -> (r: (Launcher, Step))
        requires
            self@.context.working_directory is Some,
        ensures
            (r.0@, r.1@) == model::on_probe(self@, run),
    {
        match classify(run) {
            ProbeResult::Ready => self.launch(one(String::from_str(messages::READY))),
            ProbeResult::Indeterminate => self.launch(
                one(String::from_str(messages::PROBE_NOT_RUN)),
            ),
            ProbeResult::Missing => (
                self.moved(Phase::Consenting),
                Step {
                    log: one(String::from_str(messages::MISSING)),
                    action: Action::AskConsent { command: prompt_command() },
                },
            ),
        }
    }

    fn on_prompt(self, run: PromptRun) -> (r: (Launcher, Step))
        requires
            self@.context.working_directory is Some,
            self@.context.backend is Some,
        ensures
            (r.0@, r.1@) == model::on_prompt(self@, run@),
    {
        match run {
            PromptRun::Failed { error } => self.launch(
                one(messages::dialog_failed(error.as_str())),
            ),
            PromptRun::Answered { output } => {
                let answer = read_answer(&output);
                let said = messages::user_response(answer.as_str());
                match decide_answer(answer.as_str()) {
                    InstallDecision::UserApproved => {
                        let path = manifest_path(self.backend().as_str());
                        (
                            self.moved(Phase::FindingManifest),
                            Step {
                                log: two(said, String::from_str(messages::INSTALLING)),
                                action: Action::CheckExists { path },
                            },
                        )
                    },
                    _ => self.launch(two(said, String::from_str(messages::DECLINED))),
                }
            },
        }
    }

    fn on_manifest_found(self, found: bool) -> (r: (Launcher, Step))
        requires
            self@.context.working_directory is Some,
            self@.context.backend is Some,
        ensures
            (r.0@, r.1@) == model::on_manifest_found(self@, found),
    {
        if found {
            let path = manifest_path(self.backend().as_str());
            (
                self.moved(Phase::ReadingManifest),
                Step { log: none(), action: Action::ReadFile { path } },
            )
        } else {
            self.launch(one(String::from_str(messages::MANIFEST_NOT_FOUND)))
        }
    }

    fn write_script(self, filtered: bool) -> (r: (Launcher, Step))
        requires
            self@.context.backend is Some,
        ensures
            (r.0@, r.1@) == model::write_script(self@, filtered),
    {
        let path = installer_script_path(self.backend().as_str());
        let target = install_target(self.backend().as_str(), filtered);
        let content = installer_script(target.as_str());
        (
            Launcher {
                phase: Phase::WritingScript,
                context: self.context,
                arguments: self.arguments,
                filtered,
            },
            Step {
                log: one(String::from_str(messages::WRITING_SCRIPT)),
                action: Action::WriteFile { path, content },
            },
        )
    }

    fn on_manifest_read(self, content: Option<String>) -> (r: (Launcher, Step))
        requires
            self@.context.backend is Some,
        ensures
            (r.0@, r.1@) == model::on_manifest_read(self@, content.deep_view()),
    {
        match content {
            Some(text) => {
                let manifest = DependencyManifest::derive(self.backend().as_str(), text.as_str());
                let content = manifest.text();
                (
                    self.moved(Phase::WritingManifest),
                    Step {
                        log: none(),
                        action: Action::WriteFile { path: manifest.filtered_path, content },
                    },
                )
            },
            None => self.write_script(false),
        }
    }

    fn on_manifest_written(self, error: Option<String>) -> (r: (Launcher, Step))
        requires
            self@.context.backend is Some,
        ensures
            (r.0@, r.1@) == model::on_manifest_written(self@, error.deep_view()),
    {
        self.write_script(error.is_none())
    }

    fn clean_up(self, log: Vec<String>) -> (r: (Launcher, Step))
        requires
            self@.context.working_directory is Some,
            self@.context.backend is Some,
        ensures
            (r.0@, r.1@) == model::clean_up(self@, log.deep_view()),
    {
        if self.filtered {
            let path = filtered_manifest_path(self.backend().as_str());
            (self.moved(Phase::RemovingManifest), Step { log, action: Action::RemoveFile { path } })
        } else {
            self.launch(log)
        }
    }

    fn on_script_written(self, error: Option<String>) -> (r: (Launcher, Step))
        requires
            self@.context.working_directory is Some,
            self@.context.backend is Some,
        ensures
            (r.0@, r.1@) == model::on_script_written(self@, error.deep_view()),
    {
        match error {
            None => {
                let script = installer_script_path(self.backend().as_str());
                (
                    self.moved(Phase::Installing),
                    Step {
                        log: one(String::from_str(messages::RUNNING_SCRIPT)),
                        action: Action::RunInstaller {
                            command: installer_command(script.as_str()),
                        },
                    },
                )
            },
            Some(reason) => self.clean_up(one(messages::script_not_written(reason.as_str()))),
        }
    }

    fn on_installed(self) -> (r: (Launcher, Step))
        requires
            self@.context.backend is Some,
        ensures
            (r.0@, r.1@) == model::on_installed(self@),
    {
        let path = installer_script_path(self.backend().as_str());
        (self.moved(Phase::RemovingScript), Step { log: none(), action: Action::RemoveFile { path } })
    }

    fn on_script_removed(self, error: Option<String>) -> (r: (Launcher, Step))
        requires
            self@.context.working_directory is Some,
            self@.context.backend is Some,
        ensures
            (r.0@, r.1@) == model::on_script_removed(self@, error.deep_view()),
    {
        let path = installer_script_path(self.backend().as_str());
        let log = removal_log(path.as_str(), error);
        self.clean_up(log)
    }

    fn on_manifest_removed(self, error: Option<String>) -> (r: (Launcher, Step))
        requires
            self@.context.working_directory is Some,
            self@.context.backend is Some,
        ensures
            (r.0@, r.1@) == model::on_manifest_removed(self@, error.deep_view()),
    {
        let path = filtered_manifest_path(self.backend().as_str());
        let log = removal_log(path.as_str(), error);
        self.launch(log)
    }

    fn on_spawned(self, error: Option<String>) -> (r: (Launcher, Step))
        ensures
            (r.0@, r.1@) == model::on_spawned(self@, error.deep_view()),
    {
        match error {
            None => (
                self.moved(Phase::Supervising),
                Step { log: one(String::from_str(messages::SPAWNED)), action: Action::Supervise },
            ),
            Some(reason) => {
                let log = two(
                    messages::spawn_failed(reason.as_str()),
                    String::from_str(messages::CHECK_PATH),
                );
                self.fail(log)
            },
        }
    }

    fn on_child_exited(self, code: Option<i32>) -> (r: (Launcher, Step))
        ensures
            (r.0@, r.1@) == model::on_child_exited(self@, code),
    {
        let status = launcher_exit_code(code);
        (
            self.moved(Phase::Finished { code: status }),
            Step { log: one(messages::child_exited(code)), action: Action::Exit { code: status } },
        )
    }

    /// The next state and the step to take, given the outcome of the action
    /// that the last step named. An outcome that does not answer that action
    /// ends the run with the failure status.
    pub fn step(self, event: Event) -> (r: (Launcher, Step))
        ensures
            (r.0@, r.1@) == model::next(self@, event@),
    {
        if !self.is_well_formed() {
            return self.reject();
        }
        match self.phase {
            Phase::Resetting => match event {
                Event::LogReset => self.on_reset(),
                _ => self.reject(),
            },
            Phase::Locating => match event {
                Event::Located { executable, arguments } => self.on_located(executable, arguments),
                _ => self.reject(),
            },
            Phase::Resolving { next } => match event {
                Event::Exists { found } => self.on_candidate(next, found),
                _ => self.reject(),
            },
            Phase::Probing => match event {
                Event::ProbeFinished { run } => self.on_probe(run),
                _ => self.reject(),
            },
            Phase::Consenting => match event {
                Event::PromptFinished { run } => self.on_prompt(run),
                _ => self.reject(),
            },
            Phase::FindingManifest => match event {
                Event::Exists { found } => self.on_manifest_found(found),
                _ => self.reject(),
            },
            Phase::ReadingManifest => match event {
                Event::FileRead { content } => self.on_manifest_read(content),
                _ => self.reject(),
            },
            Phase::WritingManifest => match event {
                Event::FileWritten { error } => self.on_manifest_written(error),
                _ => self.reject(),
            },
            Phase::WritingScript => match event {
                Event::FileWritten { error } => self.on_script_written(error),
                _ => self.reject(),
            },
            Phase::Installing => match event {
                Event::InstallerFinished => self.on_installed(),
                _ => self.reject(),
            },
            Phase::RemovingScript => match event {
                Event::FileRemoved { error } => self.on_script_removed(error),
                _ => self.reject(),
            },
            Phase::RemovingManifest => match event {
                Event::FileRemoved { error } => self.on_manifest_removed(error),
                _ => self.reject(),
            },
            Phase::Spawning => match event {
                Event::Spawned { error } => self.on_spawned(error),
                _ => self.reject(),
            },
            Phase::Supervising => match event {
                Event::ChildExited { code } => self.on_child_exited(code),
                _ => self.reject(),
            },
            Phase::Finished { code } => (self, Step { log: none(), action: Action::Exit { code } }),
        }
    }
}

} // verus!

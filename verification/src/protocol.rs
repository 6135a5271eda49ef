//! What the launcher asks of its surroundings, and what it is told.
//!
//! The launcher itself touches nothing. Each of its steps names one action
//! for its caller to perform; the caller performs it and hands the outcome
//! back as an event.

use crate::command::CommandLine;
use crate::command::CommandLineView;
use crate::consent::PromptRun;
use crate::consent::PromptRunView;
use crate::probe::ProbeRun;
use vstd::prelude::*;

verus! {

/// An action for the caller to perform.
#[derive(Clone, Debug, PartialEq, Eq)]
pub enum Action {
    /// Empty the log. Answered by `Event::LogReset`.
    ResetLog,
    /// Find out where the launcher is and what arguments it was given.
    /// Answered by `Event::Located`.
    Locate,
    /// Find out whether `path` exists. Answered by `Event::Exists`.
    CheckExists { path: String },
    /// Run the probe and wait for it. Answered by `Event::ProbeFinished`.
    RunProbe { command: CommandLine },
    /// Show the dialog and wait for the answer. Answered by
    /// `Event::PromptFinished`.
    AskConsent { command: CommandLine },
    /// Read the text of the file at `path`. Answered by `Event::FileRead`.
    ReadFile { path: String },
    /// Write `content` to the file at `path`. Answered by
    /// `Event::FileWritten`.
    WriteFile { path: String, content: String },
    /// Run the installer in a window of its own and wait until it has
    /// closed. Answered by `Event::InstallerFinished`.
    RunInstaller { command: CommandLine },
    /// Delete the file at `path`. Answered by `Event::FileRemoved`.
    RemoveFile { path: String },
    /// Start the runtime with both of its output streams captured. Answered
    /// by `Event::Spawned`.
    Spawn { command: CommandLine },
    /// Relay the runtime's output until it ends. Answered by
    /// `Event::ChildExited`.
    Supervise,
    /// Leave with `code`. Nothing answers it.
    Exit { code: i32 },
}

/// An `Action` as plain sequences.
pub enum ActionView {
    ResetLog,
    Locate,
    CheckExists { path: Seq<char> },
    RunProbe { command: CommandLineView },
    AskConsent { command: CommandLineView },
    ReadFile { path: Seq<char> },
    WriteFile { path: Seq<char>, content: Seq<char> },
    RunInstaller { command: CommandLineView },
    RemoveFile { path: Seq<char> },
    Spawn { command: CommandLineView },
    Supervise,
    Exit { code: i32 },
}

impl View for Action {
    type V = ActionView;

    open spec fn view(&self) -> ActionView {
        match self {
            Action::ResetLog => ActionView::ResetLog,
            Action::Locate => ActionView::Locate,
            Action::CheckExists { path } => ActionView::CheckExists { path: path@ },
            Action::RunProbe { command } => ActionView::RunProbe { command: command@ },
            Action::AskConsent { command } => ActionView::AskConsent { command: command@ },
            Action::ReadFile { path } => ActionView::ReadFile { path: path@ },
            Action::WriteFile { path, content } => ActionView::WriteFile {
                path: path@,
                content: content@,
            },
            Action::RunInstaller { command } => ActionView::RunInstaller { command: command@ },
            Action::RemoveFile { path } => ActionView::RemoveFile { path: path@ },
            Action::Spawn { command } => ActionView::Spawn { command: command@ },
            Action::Supervise => ActionView::Supervise,
            Action::Exit { code } => ActionView::Exit { code: *code },
        }
    }
}

/// What is known of the launcher's own place.
#[derive(Clone, Debug, PartialEq, Eq)]
pub enum Location {
    /// The launcher is the file at `path`.
    Known { path: String },
    /// The launcher's place could not be found out; `error` says why.
    Unknown { error: String },
}

/// A `Location` as plain sequences.
pub enum LocationView {
    Known { path: Seq<char> },
    Unknown { error: Seq<char> },
}

impl View for Location {
    type V = LocationView;

    open spec fn view(&self) -> LocationView {
        match self {
            Location::Known { path } => LocationView::Known { path: path@ },
            Location::Unknown { error } => LocationView::Unknown { error: error@ },
        }
    }
}

/// The outcome of an action.
#[derive(Clone, Debug, PartialEq, Eq)]
pub enum Event {
    /// The log is empty.
    LogReset,
    /// The launcher's own place, and the arguments it was given, without its
    /// own name.
    Located { executable: Location, arguments: Vec<String> },
    /// Whether the path exists.
    Exists { found: bool },
    /// How the probe ended.
    ProbeFinished { run: ProbeRun },
    /// How the dialog ended.
    PromptFinished { run: PromptRun },
    /// The text of the file; `None` where it could not be read.
    FileRead { content: Option<String> },
    /// `None` where the file was written, else why it was not.
    FileWritten { error: Option<String> },
    /// The installer's window has closed.
    InstallerFinished,
    /// `None` where the file was deleted, else why it was not.
    FileRemoved { error: Option<String> },
    /// `None` where the runtime has started, else why it has not.
    Spawned { error: Option<String> },
    /// The runtime has ended; `code` is its exit status, `None` where it
    /// left none.
    ChildExited { code: Option<i32> },
}

/// An `Event` as plain sequences.
pub enum EventView {
    LogReset,
    Located { executable: LocationView, arguments: Seq<Seq<char>> },
    Exists { found: bool },
    ProbeFinished { run: ProbeRun },
    PromptFinished { run: PromptRunView },
    FileRead { content: Option<Seq<char>> },
    FileWritten { error: Option<Seq<char>> },
    InstallerFinished,
    FileRemoved { error: Option<Seq<char>> },
    Spawned { error: Option<Seq<char>> },
    ChildExited { code: Option<i32> },
}

impl View for Event {
    type V = EventView;

    open spec fn view(&self) -> EventView {
        match self {
            Event::LogReset => EventView::LogReset,
            Event::Located { executable, arguments } => EventView::Located {
                executable: executable@,
                arguments: arguments.deep_view(),
            },
            Event::Exists { found } => EventView::Exists { found: *found },
            Event::ProbeFinished { run } => EventView::ProbeFinished { run: *run },
            Event::PromptFinished { run } => EventView::PromptFinished { run: run@ },
            Event::FileRead { content } => EventView::FileRead { content: content.deep_view() },
            Event::FileWritten { error } => EventView::FileWritten { error: error.deep_view() },
            Event::InstallerFinished => EventView::InstallerFinished,
            Event::FileRemoved { error } => EventView::FileRemoved { error: error.deep_view() },
            Event::Spawned { error } => EventView::Spawned { error: error.deep_view() },
            Event::ChildExited { code } => EventView::ChildExited { code: *code },
        }
    }
}

/// One step of the launcher: the messages to append to the log, in order,
/// then the action to perform.
#[derive(Clone, Debug, PartialEq, Eq)]
pub struct Step {
    pub log: Vec<String>,
    pub action: Action,
}

/// A `Step` as plain sequences.
pub struct StepView {
    pub log: Seq<Seq<char>>,
    pub action: ActionView,
}

impl View for Step {
    type V = StepView;

    open spec fn view(&self) -> StepView {
        StepView { log: self.log.deep_view(), action: self.action@ }
    }
}

} // verus!

//! The launcher's own messages for the log.
//!
//! Each message has its text as a spec function and a function that builds
//! it. Paths, the argument list and the exit status are written as `{:?}`
//! writes them; those texts are named here and in `paths`, not spelled out.

use crate::paths::quote;
use crate::paths::quoted_path;
use vstd::prelude::*;

verus! {

/// The text that `{:?}` writes for a list of strings: the items in double
/// quotes, with what needs an escape escaped, between square brackets.
pub uninterp spec fn quoted_arguments(arguments: Seq<Seq<char>>) -> Seq<char>;

/// The text that `{:?}` writes for an exit status that may be absent.
pub uninterp spec fn quoted_status(code: Option<i32>) -> Seq<char>;

/// Formats `arguments` with `{:?}`. The contract only gives the result its
/// name, `quoted_arguments`.
#[verifier::external_body]
pub(crate) fn quote_arguments(arguments: &Vec<String>) -> (text: String)
    ensures
        text@ == quoted_arguments(arguments.deep_view()),
{
    format!("{:?}", arguments)
}

/// Formats `code` with `{:?}`. The contract only gives the result its name,
/// `quoted_status`.
#[verifier::external_body]
pub(crate) fn quote_status(code: Option<i32>) -> (text: String)
    ensures
        text@ == quoted_status(code),
{
    format!("{:?}", code)
}

/// The first line of every run.
pub const STARTING: &'static str =
    "Launcher: Starting Voicebox Server wrapper...";

/// No candidate for the runtime's directory exists.
pub const BACKEND_NOT_FOUND: &'static str =
    "Error: 'backend' directory not found in any expected location.";

/// The probe is about to run.
pub const PROBING: &'static str =
    "Launcher: Performing pre-flight dependency check...";

/// The probe found a package missing.
pub const MISSING: &'static str =
    "Launcher: Missing dependencies. Prompting user...";

/// The probe found every package.
pub const READY: &'static str =
    "Launcher: Dependencies look OK.";

/// The probe could not be started.
pub const PROBE_NOT_RUN: &'static str =
    "Launcher: Failed to run python check script. Is python installed?";

/// The user agreed to the installation.
pub const INSTALLING: &'static str =
    "Launcher: Starting dependency installation...";

/// The user did not agree to the installation.
pub const DECLINED: &'static str =
    "Launcher: User declined installation. Backend will likely fail.";

/// The runtime's directory holds no manifest.
pub const MANIFEST_NOT_FOUND: &'static str =
    "Launcher: Warning: requirements.txt not found.";

/// The installer script is about to be written.
pub const WRITING_SCRIPT: &'static str =
    "Launcher: Creating installation batch file...";

/// The installer script is about to run.
pub const RUNNING_SCRIPT: &'static str =
    "Launcher: Running batch file...";

/// The runtime has started.
pub const SPAWNED: &'static str =
    "Launcher: Python process spawned. Monitoring output...";

/// The hint that follows a runtime that could not be started.
pub const CHECK_PATH: &'static str =
    "Make sure 'python' is in your system PATH.";

/// The launcher was handed an answer to something it had not asked.
pub const UNEXPECTED: &'static str =
    "Error: the answer does not fit the pending action.";

/// The launcher's own location could not be found out; `error` says why.
pub open spec fn executable_unknown_text(error: Seq<char>) -> Seq<char> {
    "Error getting exe path: "@ + error
}

/// Where the launcher itself is.
pub open spec fn executable_at_text(path: Seq<char>) -> Seq<char> {
    "Launcher: Executable at "@ + quoted_path(path)
}

/// The directory of the launcher.
pub open spec fn directory_at_text(path: Seq<char>) -> Seq<char> {
    "Launcher: Executable Dir at "@ + quoted_path(path)
}

/// The candidate at `path` exists.
pub open spec fn found_backend_text(path: Seq<char>) -> Seq<char> {
    "Launcher: Found backend at "@ + quoted_path(path)
}

/// The candidate at `path` does not exist.
pub open spec fn checked_text(path: Seq<char>) -> Seq<char> {
    "Launcher: Checked "@ + quoted_path(path) + " (not found)"@
}

/// The runtime's directory at `path` has no parent to start it in.
pub open spec fn no_parent_text(path: Seq<char>) -> Seq<char> {
    "Error: no parent directory for "@ + quoted_path(path)
}

/// The directory that the runtime will be started in.
pub open spec fn working_in_text(path: Seq<char>) -> Seq<char> {
    "Launcher: Setting CWD to "@ + quoted_path(path)
}

/// What the user answered.
pub open spec fn user_response_text(answer: Seq<char>) -> Seq<char> {
    "Launcher: User response: "@ + answer
}

/// The question could not be put; `error` says why.
pub open spec fn dialog_failed_text(error: Seq<char>) -> Seq<char> {
    "Launcher: Failed to show dialog: "@ + error
}

/// The installer script could not be written; `error` says why.
pub open spec fn script_not_written_text(error: Seq<char>) -> Seq<char> {
    "Launcher: Failed to write batch file: "@ + error
}

/// The file at `path` could not be deleted; `error` says why.
pub open spec fn not_removed_text(path: Seq<char>, error: Seq<char>) -> Seq<char> {
    "Launcher: Failed to delete "@ + quoted_path(path) + ": "@ + error
}

/// The runtime is about to be started with the launcher's own `arguments`.
pub open spec fn starting_child_text(arguments: Seq<Seq<char>>) -> Seq<char> {
    "Launcher: Running 'python -m backend.main' with args: "@ + quoted_arguments(arguments)
}

/// The runtime could not be started; `error` says why.
pub open spec fn spawn_failed_text(error: Seq<char>) -> Seq<char> {
    "Launcher: Failed to spawn python process: "@ + error
}

/// The runtime ended with `code`.
pub open spec fn child_exited_text(code: Option<i32>) -> Seq<char> {
    "Launcher: Process exited with code "@ + quoted_status(code)
}

/// The launcher's own location could not be found out; `error` says why.
pub fn executable_unknown(error: &str) -> (message: String)
    ensures
        message@ == executable_unknown_text(error@),
{
    let mut message = String::from_str("Error getting exe path: ");
    message.append(error);
    message
}

/// Where the launcher itself is.
pub fn executable_at(path: &str) -> (message: String)
    ensures
        message@ == executable_at_text(path@),
{
    let mut message = String::from_str("Launcher: Executable at ");
    message.append(quote(path).as_str());
    message
}

/// The directory of the launcher.
pub fn directory_at(path: &str) -> (message: String)
    ensures
        message@ == directory_at_text(path@),
{
    let mut message = String::from_str("Launcher: Executable Dir at ");
    message.append(quote(path).as_str());
    message
}

/// The candidate at `path` exists.
pub fn found_backend(path: &str) -> (message: String)
    ensures
        message@ == found_backend_text(path@),
{
    let mut message = String::from_str("Launcher: Found backend at ");
    message.append(quote(path).as_str());
    message
}

/// The candidate at `path` does not exist.
pub fn checked(path: &str) -> (message: String)
    ensures
        message@ == checked_text(path@),
{
    let mut message = String::from_str("Launcher: Checked ");
    message.append(quote(path).as_str());
    message.append(" (not found)");
    message
}

/// The runtime's directory at `path` has no parent to start it in.
pub fn no_parent(path: &str) -> (message: String)
    ensures
        message@ == no_parent_text(path@),
{
    let mut message = String::from_str("Error: no parent directory for ");
    message.append(quote(path).as_str());
    message
}

/// The directory that the runtime will be started in.
pub fn working_in(path: &str) -> (message: String)
    ensures
        message@ == working_in_text(path@),
{
    let mut message = String::from_str("Launcher: Setting CWD to ");
    message.append(quote(path).as_str());
    message
}

/// What the user answered.
pub fn user_response(answer: &str) -> (message: String)
    ensures
        message@ == user_response_text(answer@),
{
    let mut message = String::from_str("Launcher: User response: ");
    message.append(answer);
    message
}

/// The question could not be put; `error` says why.
pub fn dialog_failed(error: &str) -> (message: String)
    ensures
        message@ == dialog_failed_text(error@),
{
    let mut message = String::from_str("Launcher: Failed to show dialog: ");
    message.append(error);
    message
}

/// The installer script could not be written; `error` says why.
pub fn script_not_written(error: &str) -> (message: String)
    ensures
        message@ == script_not_written_text(error@),
{
    let mut message = String::from_str("Launcher: Failed to write batch file: ");
    message.append(error);
    message
}

/// The file at `path` could not be deleted; `error` says why.
pub fn not_removed(path: &str, error: &str) -> (message: String)
    ensures
        message@ == not_removed_text(path@, error@),
{
    let mut message = String::from_str("Launcher: Failed to delete ");
    message.append(quote(path).as_str());
    message.append(": ");
    message.append(error);
    message
}

/// The runtime is about to be started with the launcher's own `arguments`.
pub fn starting_child(arguments: &Vec<String>) -> (message: String)
    ensures
        message@ == starting_child_text(arguments.deep_view()),
{
    let mut message = String::from_str("Launcher: Running 'python -m backend.main' with args: ");
    message.append(quote_arguments(arguments).as_str());
    message
}

/// The runtime could not be started; `error` says why.
pub fn spawn_failed(error: &str) -> (message: String)
    ensures
        message@ == spawn_failed_text(error@),
{
    let mut message = String::from_str("Launcher: Failed to spawn python process: ");
    message.append(error);
    message
}

/// The runtime ended with `code`.
pub fn child_exited(code: Option<i32>) -> (message: String)
    ensures
        message@ == child_exited_text(code),
{
    let mut message = String::from_str("Launcher: Process exited with code ");
    message.append(quote_status(code).as_str());
    message
}

} // verus!

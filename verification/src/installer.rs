//! The transient script that installs from a manifest, and the command that
//! runs it in a window of its own.

use crate::command::CommandLine;
use crate::command::CommandLineView;
use crate::paths::join;
use crate::paths::joined_path;
use vstd::prelude::*;

verus! {

/// The script's file name in the runtime's directory.
pub const SCRIPT_NAME: &'static str = "install_deps.bat";

/// The script up to the first mention of the manifest: the window's title
/// and the line that names what is installed from.
pub const SCRIPT_HEAD: &'static str =
    "@echo off\r\ntitle Voicebox Dependency Installer\r\necho Installing missing Python dependencies...\r\necho Target: ";

/// The script between the two mentions of the manifest: the call of the
/// package manager, up to the opening quote of its argument.
pub const SCRIPT_CALL: &'static str = "\r\npip install -r \"";

/// The script after the second mention of the manifest: on failure a pause
/// and the package manager's status, on success a confirmation and a delay.
pub const SCRIPT_TAIL: &'static str =
    "\"\r\nif %errorlevel% neq 0 (\r\necho.\r\necho Installation FAILED. Please check the error messages above.\r\npause\r\nexit /b %errorlevel%\r\n)\r\necho.\r\necho Installation successful!\r\ntimeout /t 5\r\n";

/// The program that hosts the installer's window.
pub const SHELL: &'static str = "cmd";

/// The text of the script that installs from the manifest at `target`.
pub open spec fn script_text(target: Seq<char>) -> Seq<char> {
    SCRIPT_HEAD@ + target + SCRIPT_CALL@ + target + SCRIPT_TAIL@
}

/// The command that runs the script at `script` and waits for it, as a view.
pub open spec fn installer_command_view(script: Seq<char>) -> CommandLineView {
    CommandLineView {
        program: SHELL@,
        arguments: seq!["/C"@, "start"@, "/wait"@, SHELL@, "/c"@, script],
        directory: None,
    }
}

/// The text of the script that installs from the manifest at `target`.
pub fn installer_script(target: &str) -> (script: String)
    ensures
        script@ == script_text(target@),
{
    let mut script = String::from_str(SCRIPT_HEAD);
    script.append(target);
    script.append(SCRIPT_CALL);
    script.append(target);
    script.append(SCRIPT_TAIL);
    script
}

/// The script's path in the runtime's directory `backend`.
pub fn installer_script_path(backend: &str) -> (path: String)
    ensures
        path@ == joined_path(backend@, SCRIPT_NAME@),
{
    join(backend, SCRIPT_NAME)
}

/// The command that runs the script at `script` in a visible window and
/// returns when the window has closed.
pub fn installer_command(script: &str) -> (command: CommandLine)
    ensures
        command@ == installer_command_view(script@),
{
    let mut arguments: Vec<String> = Vec::new();
    arguments.push(String::from_str("/C"));
    arguments.push(String::from_str("start"));
    arguments.push(String::from_str("/wait"));
    arguments.push(String::from_str(SHELL));
    arguments.push(String::from_str("/c"));
    arguments.push(String::from_str(script));
    assert(arguments.deep_view() =~= seq!["/C"@, "start"@, "/wait"@, SHELL@, "/c"@, script@]);
    CommandLine { program: String::from_str(SHELL), arguments, directory: None }
}

} // verus!

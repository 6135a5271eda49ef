//! The check of whether the runtime's packages can be imported.

use crate::command::CommandLine;
use crate::command::CommandLineView;
use vstd::prelude::*;

verus! {

/// The interpreter that runs the probe and, later, the runtime.
pub const INTERPRETER: &'static str = "python";

/// The interpreter's flag for running a script given on the command line.
pub const SCRIPT_FLAG: &'static str = "-c";

/// The script of the probe: it imports each required package and leaves with
/// status 1 at the first that cannot be imported.
pub const PROBE_SCRIPT: &'static str =
    "\nimport sys\ntry:\n    import fastapi, uvicorn, sqlalchemy, alembic, python_multipart, numpy\nexcept ImportError:\n    sys.exit(1)\n";

/// How a run of the probe ended.
#[derive(Clone, Copy, Debug, PartialEq, Eq, Structural)]
pub enum ProbeRun {
    /// The interpreter could not be started.
    NotStarted,
    /// The probe ran; `code` is its exit status, `None` where it left none.
    Exited { code: Option<i32> },
}

/// What the probe says of the packages.
#[derive(Clone, Copy, Debug, PartialEq, Eq, Structural)]
pub enum ProbeResult {
    /// Every package was imported.
    Ready,
    /// The probe ran and did not end with status zero.
    Missing,
    /// The probe could not be run, so nothing is known.
    Indeterminate,
}

/// The result that a run of the probe stands for.
pub open spec fn classified(run: ProbeRun) -> ProbeResult {
    match run {
        ProbeRun::NotStarted => ProbeResult::Indeterminate,
        ProbeRun::Exited { code } => if code == Some(0i32) {
            ProbeResult::Ready
        } else {
            ProbeResult::Missing
        },
    }
}

/// The command of the probe, as a view.
pub open spec fn probe_command_view() -> CommandLineView {
    CommandLineView {
        program: INTERPRETER@,
        arguments: seq![SCRIPT_FLAG@, PROBE_SCRIPT@],
        directory: None,
    }
}

/// The result that a run of the probe stands for: `Indeterminate` if and only
/// if the probe could not be started, `Ready` if and only if it ended with
/// status zero, `Missing` otherwise.
pub fn classify(run: ProbeRun) -> (result: ProbeResult)
    ensures
        result == classified(run),
        result == ProbeResult::Indeterminate <==> run == ProbeRun::NotStarted,
        result == ProbeResult::Ready <==> run == (ProbeRun::Exited { code: Some(0i32) }),
{
    match run {
        ProbeRun::NotStarted => ProbeResult::Indeterminate,
        ProbeRun::Exited { code } => match code {
            Some(status) => if status == 0 {
                ProbeResult::Ready
            } else {
                ProbeResult::Missing
            },
            None => ProbeResult::Missing,
        },
    }
}

/// The command that runs the probe.
pub fn probe_command() -> (command: CommandLine)
    ensures
        command@ == probe_command_view(),
{
    let mut arguments: Vec<String> = Vec::new();
    arguments.push(String::from_str(SCRIPT_FLAG));
    arguments.push(String::from_str(PROBE_SCRIPT));
    assert(arguments.deep_view() =~= seq![SCRIPT_FLAG@, PROBE_SCRIPT@]);
    CommandLine { program: String::from_str(INTERPRETER), arguments, directory: None }
}

} // verus!

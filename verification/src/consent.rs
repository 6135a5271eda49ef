//! The question put to the user, and what is made of the answer.

use crate::command::CommandLine;
use crate::command::CommandLineView;
use crate::probe::ProbeResult;
use crate::text::same_text;
use crate::text::trim;
use crate::text::trimmed;
use vstd::prelude::*;

verus! {

/// The program that shows the dialog.
pub const DIALOG_HOST: &'static str = "powershell";

/// The script of the dialog: a yes/no question whose answer is written out.
pub const DIALOG_SCRIPT: &'static str =
    "\nAdd-Type -AssemblyName System.Windows.Forms\n$result = [System.Windows.Forms.MessageBox]::Show('Voicebox requires Python dependencies (FastAPI, SQLAlchemy, etc.) that are missing in your global environment.\n\nDo you want to install them now using pip?\n(This will try to protect your existing PyTorch installation)', 'Missing Dependencies', 'YesNo', 'Question')\nWrite-Output $result\n";

/// The one answer that counts as consent.
pub const AFFIRMATIVE: &'static str = "Yes";

/// The text that `String::from_utf8_lossy` makes of `bytes`.
pub uninterp spec fn lossy_text(bytes: Seq<u8>) -> Seq<char>;

/// Calls `String::from_utf8_lossy` on `bytes`. The contract only gives the
/// result its name, `lossy_text`.
#[verifier::external_body]
pub(crate) fn decode_lossy(bytes: &Vec<u8>) -> (text: String)
    ensures
        text@ == lossy_text(bytes@),
{
    String::from_utf8_lossy(bytes).into_owned()
}

/// How the dialog ended.
#[derive(Clone, Debug, PartialEq, Eq)]
pub enum PromptRun {
    /// The dialog could not be shown; `error` says why.
    Failed { error: String },
    /// The dialog was shown; `output` is what it wrote.
    Answered { output: Vec<u8> },
}

/// A `PromptRun` as plain sequences.
pub enum PromptRunView {
    Failed { error: Seq<char> },
    Answered { output: Seq<u8> },
}

impl View for PromptRun {
    type V = PromptRunView;

    open spec fn view(&self) -> PromptRunView {
        match self {
            PromptRun::Failed { error } => PromptRunView::Failed { error: error@ },
            PromptRun::Answered { output } => PromptRunView::Answered { output: output@ },
        }
    }
}

/// Whether the installation is to run.
#[derive(Clone, Copy, Debug, PartialEq, Eq, Structural)]
pub enum InstallDecision {
    /// Nothing was found missing, so nobody was asked.
    NotNeeded,
    /// The user was asked and did not say yes.
    UserDeclined,
    /// The user was asked and said yes.
    UserApproved,
    /// The question could not be put.
    PromptFailed,
}

/// The answer in what the dialog wrote: its text without the white space
/// around it.
pub open spec fn answer_of(output: Seq<u8>) -> Seq<char> {
    trimmed(lossy_text(output))
}

/// Whether `answer` is consent: the affirmative word, to the letter.
pub open spec fn is_affirmative(answer: Seq<char>) -> bool {
    answer == AFFIRMATIVE@
}

/// The decision that an answer stands for.
pub open spec fn decision_for_answer(answer: Seq<char>) -> InstallDecision {
    if is_affirmative(answer) {
        InstallDecision::UserApproved
    } else {
        InstallDecision::UserDeclined
    }
}

/// The decision that the probe's result and the dialog's end stand for.
pub open spec fn decided(probe: ProbeResult, prompt: PromptRunView) -> InstallDecision {
    if probe != ProbeResult::Missing {
        InstallDecision::NotNeeded
    } else {
        match prompt {
            PromptRunView::Failed { .. } => InstallDecision::PromptFailed,
            PromptRunView::Answered { output } => decision_for_answer(answer_of(output)),
        }
    }
}

/// The command of the dialog, as a view.
pub open spec fn prompt_command_view() -> CommandLineView {
    CommandLineView {
        program: DIALOG_HOST@,
        arguments: seq!["-NoProfile"@, "-Command"@, DIALOG_SCRIPT@],
        directory: None,
    }
}

/// The command that shows the dialog.
pub fn prompt_command() -> (command: CommandLine)
    ensures
        command@ == prompt_command_view(),
{
    let mut arguments: Vec<String> = Vec::new();
    arguments.push(String::from_str("-NoProfile"));
    arguments.push(String::from_str("-Command"));
    arguments.push(String::from_str(DIALOG_SCRIPT));
    assert(arguments.deep_view() =~= seq!["-NoProfile"@, "-Command"@, DIALOG_SCRIPT@]);
    CommandLine { program: String::from_str(DIALOG_HOST), arguments, directory: None }
}

/// The answer in what the dialog wrote.
pub fn read_answer(output: &Vec<u8>) -> (answer: String)
    ensures
        answer@ == answer_of(output@),
{
    let text = decode_lossy(output);
    trim(text.as_str())
}

/// The decision that `answer` stands for: approval for the affirmative word
/// and for nothing else.
pub fn decide_answer(answer: &str) -> (decision: InstallDecision)
    ensures
        decision == decision_for_answer(answer@),
        decision == InstallDecision::UserApproved <==> answer@ == AFFIRMATIVE@,
        decision == InstallDecision::UserApproved || decision == InstallDecision::UserDeclined,
{
    if same_text(answer, AFFIRMATIVE) {
        InstallDecision::UserApproved
    } else {
        InstallDecision::UserDeclined
    }
}

/// The decision that the probe's result and the dialog's end stand for. The
/// dialog counts only where the probe found something missing.
pub fn decide(probe: ProbeResult, prompt: &PromptRun) -> (decision: InstallDecision)
    ensures
        decision == decided(probe, prompt@),
        decision == InstallDecision::NotNeeded <==> probe != ProbeResult::Missing,
{
    match probe {
        ProbeResult::Missing => match prompt {
            PromptRun::Failed { .. } => InstallDecision::PromptFailed,
            PromptRun::Answered { output } => {
                let answer = read_answer(output);
                decide_answer(answer.as_str())
            },
        },
        _ => InstallDecision::NotNeeded,
    }
}

} // verus!

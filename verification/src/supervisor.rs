//! Starting the runtime, relaying what it writes, and passing its exit
//! status on.

use crate::command::append_texts;
use crate::command::CommandLine;
use crate::command::CommandLineView;
use crate::probe::INTERPRETER;
use vstd::prelude::*;

verus! {

/// The interpreter's flag for running a module.
pub const MODULE_FLAG: &'static str = "-m";

/// The module that is the runtime's entry.
pub const MODULE_NAME: &'static str = "backend.main";

/// The launcher's exit status where the runtime left none, and on every
/// failure of the launcher itself.
pub const FAILURE_STATUS: i32 = 1;

/// What precedes a line of the runtime's standard output in the log.
pub const STDOUT_PREFIX: &'static str = "STDOUT: ";

/// What precedes a line of the runtime's standard error in the log.
pub const STDERR_PREFIX: &'static str = "STDERR: ";

/// The arguments of the runtime: the module invocation, then what the
/// launcher itself was given, unchanged and in order.
pub open spec fn child_arguments(forwarded: Seq<Seq<char>>) -> Seq<Seq<char>> {
    seq![MODULE_FLAG@, MODULE_NAME@] + forwarded
}

/// The command that starts the runtime, as a view.
pub open spec fn child_command_view(
    forwarded: Seq<Seq<char>>,
    directory: Seq<char>,
) -> CommandLineView {
    CommandLineView {
        program: INTERPRETER@,
        arguments: child_arguments(forwarded),
        directory: Some(directory),
    }
}

/// The launcher's exit status for a runtime that ended with `code`.
pub open spec fn exit_status(code: Option<i32>) -> i32 {
    match code {
        Some(status) => status,
        None => FAILURE_STATUS,
    }
}

/// The command that starts the runtime in `directory` with the launcher's
/// own arguments `forwarded`.
pub fn child_command(forwarded: &Vec<String>, directory: &str) -> (command: CommandLine)
    ensures
        command@ == child_command_view(forwarded.deep_view(), directory@),
        command@.arguments.len() == forwarded.len() + 2,
        forall|i: int|
            0 <= i < forwarded.len() ==> #[trigger] command@.arguments[i + 2] == forwarded@[i]@,
{
    let mut head: Vec<String> = Vec::new();
    head.push(String::from_str(MODULE_FLAG));
    head.push(String::from_str(MODULE_NAME));
    assert(head.deep_view() =~= seq![MODULE_FLAG@, MODULE_NAME@]);
    let arguments = append_texts(head, forwarded);
    CommandLine {
        program: String::from_str(INTERPRETER),
        arguments,
        directory: Some(String::from_str(directory)),
    }
}

/// The launcher's exit status for a runtime that ended with `code`: the
/// runtime's own status, or the failure status where it left none.
pub fn launcher_exit_code(code: Option<i32>) -> (status: i32)
    ensures
        status == exit_status(code),
        code matches Some(own) ==> status == own,
        code is None ==> status == FAILURE_STATUS,
{
    match code {
        Some(status) => status,
        None => FAILURE_STATUS,
    }
}

/// One of the runtime's two output streams.
#[derive(Clone, Copy, Debug, PartialEq, Eq, Structural)]
pub enum Stream {
    Stdout,
    Stderr,
}

/// What precedes a line of `stream` in the log.
pub open spec fn stream_prefix(stream: Stream) -> Seq<char> {
    match stream {
        Stream::Stdout => STDOUT_PREFIX@,
        Stream::Stderr => STDERR_PREFIX@,
    }
}

/// The log message for `line` of `stream`.
pub open spec fn relayed_text(stream: Stream, line: Seq<char>) -> Seq<char> {
    stream_prefix(stream) + line
}

/// What is done with one line of the runtime's output: a message for the
/// log, and the line itself for the launcher's stream of the same name.
#[derive(Clone, Debug, PartialEq, Eq)]
pub struct Relay {
    pub log_message: String,
    pub stream: Stream,
    pub forwarded: String,
}

/// What is done with `line` of `stream`: it goes to the log behind the
/// stream's prefix, and unchanged to the launcher's stream of the same name.
pub fn relay(stream: Stream, line: &str) -> (relayed: Relay)
    ensures
        relayed.log_message@ == relayed_text(stream, line@),
        relayed.stream == stream,
        relayed.forwarded@ == line@,
{
    let mut log_message = match stream {
        Stream::Stdout => String::from_str(STDOUT_PREFIX),
        Stream::Stderr => String::from_str(STDERR_PREFIX),
    };
    log_message.append(line);
    Relay { log_message, stream, forwarded: String::from_str(line) }
}

/// A line that the runtime wrote, with the stream it wrote it to.
pub struct ChildLine {
    pub stream: Stream,
    pub text: Seq<char>,
}

/// The log messages for `output`, the runtime's lines in the order in which
/// they reached the log: one message for each line.
pub open spec fn relayed_log(output: Seq<ChildLine>) -> Seq<Seq<char>> {
    Seq::new(output.len(), |i: int| relayed_text(output[i].stream, output[i].text))
}

/// The lines of `output` that were written to `stream`, in order.
pub open spec fn lines_from(output: Seq<ChildLine>, stream: Stream) -> Seq<Seq<char>>
    decreases output.len(),
{
    if output.len() == 0 {
        Seq::empty()
    } else if output.last().stream == stream {
        lines_from(output.drop_last(), stream).push(output.last().text)
    } else {
        lines_from(output.drop_last(), stream)
    }
}

/// Whether `message` stands for a line of `stream`.
pub open spec fn is_from(message: Seq<char>, stream: Stream) -> bool {
    stream_prefix(stream).is_prefix_of(message)
}

/// The lines of `stream` that `log` holds, in the order of the log, each
/// without the stream's prefix.
pub open spec fn recovered_lines(log: Seq<Seq<char>>, stream: Stream) -> Seq<Seq<char>>
    decreases log.len(),
{
    if log.len() == 0 {
        Seq::empty()
    } else if is_from(log.last(), stream) {
        recovered_lines(log.drop_last(), stream).push(
            log.last().skip(stream_prefix(stream).len() as int),
        )
    } else {
        recovered_lines(log.drop_last(), stream)
    }
}

/// A relayed message stands for a line of the stream it came from, and of
/// no other.
pub proof fn relayed_text_keeps_origin(stream: Stream, line: Seq<char>, other: Stream)
    ensures
        is_from(relayed_text(stream, line), other) <==> other == stream,
        relayed_text(stream, line).skip(stream_prefix(stream).len() as int) == line,
{
    reveal_strlit("STDOUT: ");
    reveal_strlit("STDERR: ");
    let message = relayed_text(stream, line);
    assert(message.subrange(0, stream_prefix(stream).len() as int) =~= stream_prefix(stream));
    assert(message.skip(stream_prefix(stream).len() as int) =~= line);
    if other != stream {
        assert(message[3] == stream_prefix(stream)[3]);
        if is_from(message, other) {
            assert(message.subrange(0, stream_prefix(other).len() as int)[3] == stream_prefix(
                other,
            )[3]);
        }
    }
}

/// Every line that the runtime writes to either stream stands in the log
/// exactly once, behind the prefix of its stream; and whatever the order in
/// which the lines of the two streams reached the log, the lines of each
/// stream stand there in the order in which they were written.
pub proof fn relay_keeps_every_line(output: Seq<ChildLine>, stream: Stream)
    ensures
        relayed_log(output).len() == output.len(),
        forall|i: int|
            0 <= i < output.len() ==> #[trigger] relayed_log(output)[i] == stream_prefix(
                output[i].stream,
            ) + output[i].text,
        recovered_lines(relayed_log(output), stream) == lines_from(output, stream),
    decreases output.len(),
{
    if output.len() > 0 {
        let last = output.last();
        relay_keeps_every_line(output.drop_last(), stream);
        relayed_text_keeps_origin(last.stream, last.text, stream);
        assert(relayed_log(output).drop_last() =~= relayed_log(output.drop_last()));
        assert(relayed_log(output).last() == relayed_text(last.stream, last.text));
    }
}

} // verus!

use voicebox_launcher::command::CommandLine;
use voicebox_launcher::logger::entry;
use voicebox_launcher::logger::format_entry;
use voicebox_launcher::logger::LOG_FILE_NAME;
use voicebox_launcher::supervisor::child_command;
use voicebox_launcher::supervisor::launcher_exit_code;
use voicebox_launcher::supervisor::relay;
use voicebox_launcher::supervisor::Stream;

fn owned(items: &[&str]) -> Vec<String> {
    items.iter().map(|s| s.to_string()).collect()
}

#[test]
fn arguments_follow_the_module_invocation_unchanged() {
    let command = child_command(&owned(&["--port", "8080", "--flag"]), "/opt/app");
    assert_eq!(
        command,
        CommandLine {
            program: "python".to_string(),
            arguments: owned(&["-m", "backend.main", "--port", "8080", "--flag"]),
            directory: Some("/opt/app".to_string()),
        }
    );
}

#[test]
fn child_command_without_arguments_is_the_module_invocation() {
    let command = child_command(&owned(&[]), "");
    assert_eq!(command.arguments, owned(&["-m", "backend.main"]));
    assert_eq!(command.directory, Some("".to_string()));
}

#[test]
fn arguments_are_not_split_or_trimmed() {
    let given = owned(&["a b", "", " -m ", "é\n"]);
    let command = child_command(&given, "/w");
    assert_eq!(&command.arguments[2..], &given[..]);
}

#[test]
fn exit_code_is_the_childs_own() {
    for code in [0, 1, 2, 127] {
        assert_eq!(launcher_exit_code(Some(code)), code);
    }
    assert_eq!(launcher_exit_code(Some(-1)), -1);
    assert_eq!(launcher_exit_code(Some(i32::MAX)), i32::MAX);
}

#[test]
fn exit_code_without_status_is_one() {
    assert_eq!(launcher_exit_code(None), 1);
}

#[test]
fn relay_prefixes_the_log_message_with_the_stream() {
    let out = relay(Stream::Stdout, "ready");
    assert_eq!(out.log_message, "STDOUT: ready");
    assert_eq!(out.stream, Stream::Stdout);
    assert_eq!(out.forwarded, "ready");
    let err = relay(Stream::Stderr, "STDOUT: not really");
    assert_eq!(err.log_message, "STDERR: STDOUT: not really");
    assert_eq!(err.stream, Stream::Stderr);
    assert_eq!(err.forwarded, "STDOUT: not really");
}

#[test]
fn relay_keeps_every_line_once_and_each_streams_order() {
    let written = [
        (Stream::Stdout, "o1"),
        (Stream::Stderr, "e1"),
        (Stream::Stderr, "e2"),
        (Stream::Stdout, "o2"),
        (Stream::Stdout, ""),
    ];
    let log: Vec<String> = written.iter().map(|(s, l)| relay(*s, l).log_message).collect();
    assert_eq!(log.len(), written.len());
    let from_stdout: Vec<&str> = log.iter().filter_map(|m| m.strip_prefix("STDOUT: ")).collect();
    let from_stderr: Vec<&str> = log.iter().filter_map(|m| m.strip_prefix("STDERR: ")).collect();
    assert_eq!(from_stdout, vec!["o1", "o2", ""]);
    assert_eq!(from_stderr, vec!["e1", "e2"]);
}

#[test]
fn format_entry_puts_the_stamp_in_brackets() {
    assert_eq!(
        format_entry("2024-01-02 03:04:05", "Launcher: hello"),
        "[2024-01-02 03:04:05] Launcher: hello\n"
    );
    assert_eq!(format_entry("", ""), "[] \n");
}

#[test]
fn entry_is_stamped_with_date_and_time() {
    let line = entry("STDOUT: a ] b");
    let close = line.find(']').unwrap();
    let stamp = &line[1..close];
    assert!(line.starts_with('['));
    assert!(stamp.len() >= 19);
    assert!(stamp.chars().all(|c| c.is_ascii_digit() || "-+ :".contains(c)), "{:?}", stamp);
    let tail: Vec<char> = stamp.chars().rev().take(15).collect();
    let shape: String = tail.iter().rev().map(|c| if c.is_ascii_digit() { 'd' } else { *c }).collect();
    assert_eq!(shape, "-dd-dd dd:dd:dd");
    assert_eq!(&line[close..], "] STDOUT: a ] b\n");
}

#[test]
fn log_file_name_is_fixed() {
    assert_eq!(LOG_FILE_NAME, "voicebox-launch.log");
}

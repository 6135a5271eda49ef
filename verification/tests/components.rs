use voicebox_launcher::command::append_texts;
use voicebox_launcher::command::CommandLine;
use voicebox_launcher::consent::decide;
use voicebox_launcher::consent::decide_answer;
use voicebox_launcher::consent::prompt_command;
use voicebox_launcher::consent::read_answer;
use voicebox_launcher::consent::InstallDecision;
use voicebox_launcher::consent::PromptRun;
use voicebox_launcher::installer::installer_command;
use voicebox_launcher::installer::installer_script;
use voicebox_launcher::installer::installer_script_path;
use voicebox_launcher::manifest::filter_manifest;
use voicebox_launcher::manifest::filtered_manifest_path;
use voicebox_launcher::manifest::install_target;
use voicebox_launcher::manifest::keep_entries;
use voicebox_launcher::manifest::manifest_path;
use voicebox_launcher::manifest::protected;
use voicebox_launcher::manifest::DependencyManifest;
use voicebox_launcher::probe::classify;
use voicebox_launcher::probe::probe_command;
use voicebox_launcher::probe::ProbeResult;
use voicebox_launcher::probe::ProbeRun;

fn owned(items: &[&str]) -> Vec<String> {
    items.iter().map(|s| s.to_string()).collect()
}

#[test]
fn append_texts_keeps_order() {
    assert_eq!(append_texts(owned(&["-m", "x"]), &owned(&["1", "2"])), owned(&["-m", "x", "1", "2"]));
    assert_eq!(append_texts(owned(&[]), &owned(&["1"])), owned(&["1"]));
    assert_eq!(append_texts(owned(&["1"]), &owned(&[])), owned(&["1"]));
}

#[test]
fn probe_that_exits_with_zero_is_ready() {
    assert_eq!(classify(ProbeRun::Exited { code: Some(0) }), ProbeResult::Ready);
}

#[test]
fn probe_that_exits_with_another_status_is_missing() {
    assert_eq!(classify(ProbeRun::Exited { code: Some(1) }), ProbeResult::Missing);
    assert_eq!(classify(ProbeRun::Exited { code: Some(2) }), ProbeResult::Missing);
    assert_eq!(classify(ProbeRun::Exited { code: Some(-1) }), ProbeResult::Missing);
    assert_eq!(classify(ProbeRun::Exited { code: None }), ProbeResult::Missing);
}

#[test]
fn probe_that_cannot_start_is_indeterminate() {
    assert_eq!(classify(ProbeRun::NotStarted), ProbeResult::Indeterminate);
}

#[test]
fn probe_command_runs_the_script_in_the_interpreter() {
    let command = probe_command();
    assert_eq!(command.program, "python");
    assert_eq!(command.arguments.len(), 2);
    assert_eq!(command.arguments[0], "-c");
    assert_eq!(
        command.arguments[1],
        "\nimport sys\ntry:\n    import fastapi, uvicorn, sqlalchemy, alembic, python_multipart, numpy\nexcept ImportError:\n    sys.exit(1)\n"
    );
    assert_eq!(command.directory, None);
}

#[test]
fn prompt_command_shows_the_dialog() {
    let command = prompt_command();
    assert_eq!(command.program, "powershell");
    assert_eq!(command.arguments.len(), 3);
    assert_eq!(command.arguments[0], "-NoProfile");
    assert_eq!(command.arguments[1], "-Command");
    assert!(command.arguments[2].contains("'Missing Dependencies', 'YesNo', 'Question'"));
    assert!(command.arguments[2].ends_with("Write-Output $result\n"));
    assert_eq!(command.directory, None);
}

#[test]
fn read_answer_decodes_and_trims() {
    assert_eq!(read_answer(&b"Yes\r\n".to_vec()), "Yes");
    assert_eq!(read_answer(&b"  No ".to_vec()), "No");
    assert_eq!(read_answer(&Vec::new()), "");
    assert_eq!(read_answer(&vec![b'a', 0xff, b'b', b'\n']), "a\u{fffd}b");
}

#[test]
fn only_the_affirmative_word_is_consent() {
    assert_eq!(decide_answer("Yes"), InstallDecision::UserApproved);
    assert_eq!(decide_answer("No"), InstallDecision::UserDeclined);
    assert_eq!(decide_answer("yes"), InstallDecision::UserDeclined);
    assert_eq!(decide_answer("YES"), InstallDecision::UserDeclined);
    assert_eq!(decide_answer("Yes."), InstallDecision::UserDeclined);
    assert_eq!(decide_answer(" Yes"), InstallDecision::UserDeclined);
    assert_eq!(decide_answer(""), InstallDecision::UserDeclined);
}

#[test]
fn decision_follows_probe_and_dialog() {
    let yes = PromptRun::Answered { output: b"Yes\r\n".to_vec() };
    let no = PromptRun::Answered { output: b"No\r\n".to_vec() };
    let failed = PromptRun::Failed { error: "no dialog".to_string() };
    assert_eq!(decide(ProbeResult::Missing, &yes), InstallDecision::UserApproved);
    assert_eq!(decide(ProbeResult::Missing, &no), InstallDecision::UserDeclined);
    assert_eq!(decide(ProbeResult::Missing, &failed), InstallDecision::PromptFailed);
    assert_eq!(decide(ProbeResult::Ready, &yes), InstallDecision::NotNeeded);
    assert_eq!(decide(ProbeResult::Indeterminate, &yes), InstallDecision::NotNeeded);
}

#[test]
fn protected_lines_start_with_the_marker_after_trimming() {
    assert!(protected("torch==2.0"));
    assert!(protected("torch"));
    assert!(protected("  torch>=1.0"));
    assert!(protected("\ttorchvision"));
    assert!(protected("torch \r"));
    assert!(!protected("fastapi"));
    assert!(!protected("pytorch"));
    assert!(!protected("# torch"));
    assert!(!protected("torc"));
    assert!(!protected(""));
    assert!(!protected("   "));
}

#[test]
fn protected_marker_is_matched_to_the_letter() {
    assert!(!protected("TORCH-vision"));
    assert!(!protected("Torch"));
    assert!(!protected("tOrch==2.0"));
}

#[test]
fn filter_drops_the_protected_line_and_keeps_the_rest() {
    assert_eq!(filter_manifest("torch==2.0\nfastapi\nTORCH-vision"), "fastapi\nTORCH-vision");
}

#[test]
fn filter_keeps_order_and_blank_lines() {
    assert_eq!(filter_manifest("a\n\ntorch\nb\n"), "a\n\nb");
    assert_eq!(filter_manifest("a\r\n torchaudio\r\nb\r\n"), "a\nb");
    assert_eq!(filter_manifest(""), "");
    assert_eq!(filter_manifest("torch\ntorchvision"), "");
    assert_eq!(filter_manifest("fastapi"), "fastapi");
}

#[test]
fn filter_agrees_with_lines_trim_and_prefix_of_std() {
    for content in ["torch==2.0\nfastapi\nTORCH-vision", " torch\r\nx\r\n", "x\ny\n", "\n\n", "a torch\n\ttorch\n"] {
        let expected = content
            .lines()
            .filter(|l| !l.trim().starts_with("torch"))
            .collect::<Vec<&str>>()
            .join("\n");
        assert_eq!(filter_manifest(content), expected, "{:?}", content);
    }
}

#[test]
fn keep_entries_filters_a_list() {
    assert_eq!(keep_entries(&owned(&["torch", "a", " torch", "b"])), owned(&["a", "b"]));
    assert_eq!(keep_entries(&owned(&[])), owned(&[]));
}

#[test]
fn manifest_paths_are_in_the_backend_directory() {
    assert_eq!(manifest_path("/opt/app/backend"), "/opt/app/backend/requirements.txt");
    assert_eq!(filtered_manifest_path("/opt/app/backend"), "/opt/app/backend/requirements_install.txt");
    assert_eq!(installer_script_path("/opt/app/backend"), "/opt/app/backend/install_deps.bat");
}

#[test]
fn install_target_prefers_the_filtered_copy() {
    assert_eq!(install_target("/b", true), "/b/requirements_install.txt");
    assert_eq!(install_target("/b", false), "/b/requirements.txt");
}

#[test]
fn derived_manifest_holds_paths_and_kept_entries() {
    let manifest = DependencyManifest::derive("/b", "torch==2.0\nfastapi\nTORCH-vision\n");
    assert_eq!(manifest.source_path, "/b/requirements.txt");
    assert_eq!(manifest.filtered_path, "/b/requirements_install.txt");
    assert_eq!(manifest.filtered_entries, owned(&["fastapi", "TORCH-vision"]));
    assert_eq!(manifest.text(), "fastapi\nTORCH-vision");
}

#[test]
fn installer_script_names_the_target_twice() {
    assert_eq!(
        installer_script("C:\\app\\backend\\requirements_install.txt"),
        "@echo off\r\ntitle Voicebox Dependency Installer\r\necho Installing missing Python dependencies...\r\necho Target: C:\\app\\backend\\requirements_install.txt\r\npip install -r \"C:\\app\\backend\\requirements_install.txt\"\r\nif %errorlevel% neq 0 (\r\necho.\r\necho Installation FAILED. Please check the error messages above.\r\npause\r\nexit /b %errorlevel%\r\n)\r\necho.\r\necho Installation successful!\r\ntimeout /t 5\r\n"
    );
}

#[test]
fn installer_command_waits_for_a_visible_window() {
    let command = installer_command("/b/install_deps.bat");
    assert_eq!(
        command,
        CommandLine {
            program: "cmd".to_string(),
            arguments: owned(&["/C", "start", "/wait", "cmd", "/c", "/b/install_deps.bat"]),
            directory: None,
        }
    );
}

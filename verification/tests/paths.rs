use voicebox_launcher::paths::candidate_backend_paths;
use voicebox_launcher::paths::executable_directory;
use voicebox_launcher::paths::first_existing;
use voicebox_launcher::paths::working_directory;
use voicebox_launcher::paths::CANDIDATE_COUNT;

#[test]
fn executable_directory_is_the_parent() {
    assert_eq!(executable_directory("/opt/app/bin/launcher"), "/opt/app/bin");
    assert_eq!(executable_directory("launcher"), "");
}

#[test]
fn executable_directory_without_parent_is_the_current_directory() {
    assert_eq!(executable_directory("/"), ".");
    assert_eq!(executable_directory(""), ".");
}

#[test]
fn candidates_are_listed_in_priority_order() {
    assert_eq!(
        candidate_backend_paths("/opt/app/bin"),
        vec![
            "/opt/app/bin/resources/backend".to_string(),
            "/opt/app/bin/backend".to_string(),
            "/opt/app/resources/backend".to_string(),
            "/opt/app/backend".to_string(),
        ]
    );
}

#[test]
fn candidates_one_level_up_fall_back_to_the_directory_itself() {
    assert_eq!(
        candidate_backend_paths("/"),
        vec![
            "/resources/backend".to_string(),
            "/backend".to_string(),
            "/resources/backend".to_string(),
            "/backend".to_string(),
        ]
    );
    assert_eq!(candidate_backend_paths(".").len(), CANDIDATE_COUNT);
    assert_eq!(
        candidate_backend_paths("."),
        vec![
            "./resources/backend".to_string(),
            "./backend".to_string(),
            "resources/backend".to_string(),
            "backend".to_string(),
        ]
    );
}

#[test]
fn first_existing_takes_the_first_of_several() {
    assert_eq!(first_existing(&vec![false, true, false, true]), Some(1));
    assert_eq!(first_existing(&vec![true, true, true, true]), Some(0));
    assert_eq!(first_existing(&vec![false, false, false, true]), Some(3));
}

#[test]
fn first_existing_of_none_is_none() {
    assert_eq!(first_existing(&vec![false, false, false, false]), None);
    assert_eq!(first_existing(&vec![]), None);
}

#[test]
fn first_existing_goes_by_position_for_every_pattern() {
    for pattern in 0u32..16 {
        let found: Vec<bool> = (0..4).map(|i| pattern & (1 << i) != 0).collect();
        let expected = found.iter().position(|f| *f);
        assert_eq!(first_existing(&found), expected);
    }
}

#[test]
fn working_directory_is_the_parent_of_the_backend() {
    assert_eq!(working_directory("/opt/app/resources/backend"), Some("/opt/app/resources".to_string()));
    assert_eq!(working_directory("backend"), Some("".to_string()));
    assert_eq!(working_directory("/"), None);
}

use ting::config::{Config, ExitCodeSounds, PathProbe};
use ting::cue_map::CueMap;
use ting::validate::{
    handle_validate_config, sound_file_checks_with_home, validation_checks, validation_report,
    SoundFileCheck, ValidateError,
};

fn config() -> Config {
    let mut cues = CueMap::new();
    cues.insert("test-cue".to_string(), "also/does/not/exist.wav".to_string());
    cues.insert("build-fail".to_string(), "~/yet/another/missing.wav".to_string());
    Config {
        exit_codes: Some(ExitCodeSounds {
            success: Some("does/not/exist.wav".to_string()),
            error: None,
        }),
        cues,
    }
}

fn check(name: &str, path: &str) -> SoundFileCheck {
    SoundFileCheck { name: name.to_string(), path: path.to_string() }
}

#[test]
fn checks_list_exit_codes_then_cues_in_name_order() {
    let checks = sound_file_checks_with_home(&config(), Some("/home/u"));
    let listed: Vec<(String, String)> =
        checks.iter().map(|c| (c.name.clone(), c.path.clone())).collect();
    assert_eq!(
        listed,
        vec![
            ("exit_codes.success".to_string(), "does/not/exist.wav".to_string()),
            ("cues.build-fail".to_string(), "/home/u/yet/another/missing.wav".to_string()),
            ("cues.test-cue".to_string(), "also/does/not/exist.wav".to_string()),
        ]
    );
}

#[test]
fn no_config_cannot_be_validated() {
    match validation_checks(&None) {
        Err(e) => {
            assert!(matches!(e, ValidateError::NoConfig));
            assert_eq!(e.message(), "no config found at default location");
        }
        Ok(_) => panic!("expected an error"),
    }
    assert_eq!(validation_checks(&Some(config())).ok().unwrap().len(), 3);
}

#[test]
fn config_file_with_non_existent_sound_files_fails_validation() {
    let checks = vec![
        check("exit_codes.success", "does/not/exist.wav"),
        check("cues.build-fail", "yet/another/missing.wav"),
        check("cues.test-cue", "also/does/not/exist.wav"),
    ];
    let probes = vec![PathProbe::Missing, PathProbe::Missing, PathProbe::Missing];
    let errors = handle_validate_config(&checks, &probes).ok().unwrap();
    assert_eq!(
        errors,
        vec![
            "file associated with exit_codes.success does not exist: 'does/not/exist.wav'",
            "file associated with cues.build-fail does not exist: 'yet/another/missing.wav'",
            "file associated with cues.test-cue does not exist: 'also/does/not/exist.wav'",
        ]
    );
    // the program reports the failure as `Error: <report>`
    assert_eq!(
        format!("Error: {}", validation_report(&errors)),
        "Error: found 3 validation errors:\n  1. file associated with exit_codes.success does not exist: 'does/not/exist.wav'\n  2. file associated with cues.build-fail does not exist: 'yet/another/missing.wav'\n  3. file associated with cues.test-cue does not exist: 'also/does/not/exist.wav'"
    );
}

#[test]
fn config_file_with_sound_paths_pointing_to_directories_fails_validation() {
    let checks = vec![check("exit_codes.success", "tests"), check("cues.test-cue", "src")];
    let probes = vec![PathProbe::NotAFile, PathProbe::NotAFile];
    let errors = handle_validate_config(&checks, &probes).ok().unwrap();
    assert_eq!(
        errors,
        vec![
            "path associated with exit_codes.success is not a file: 'tests'",
            "path associated with cues.test-cue is not a file: 'src'",
        ]
    );
    assert_eq!(
        format!("Error: {}", validation_report(&errors)),
        "Error: found 2 validation errors:\n  1. path associated with exit_codes.success is not a file: 'tests'\n  2. path associated with cues.test-cue is not a file: 'src'"
    );
}

#[test]
fn config_file_with_single_missing_sound_file_fails_validation() {
    let checks = vec![check("exit_codes.error", "does/not/exist.wav")];
    let errors = handle_validate_config(&checks, &vec![PathProbe::Missing]).ok().unwrap();
    assert_eq!(
        format!("Error: {}", validation_report(&errors)),
        "Error: file associated with exit_codes.error does not exist: 'does/not/exist.wav'"
    );
}

#[test]
fn valid_config_passes_validation() {
    let checks = vec![check("exit_codes.success", "a.wav"), check("exit_codes.error", "b.wav")];
    let probes = vec![PathProbe::File, PathProbe::File];
    let errors = handle_validate_config(&checks, &probes).ok().unwrap();
    assert!(errors.is_empty());
    assert_eq!(validation_report(&errors), "config looks good ✅");
}

#[test]
fn empty_config_passes_validation() {
    let empty = Config { exit_codes: None, cues: CueMap::new() };
    let checks = validation_checks(&Some(empty)).ok().unwrap();
    assert!(checks.is_empty());
    let errors = handle_validate_config(&checks, &Vec::new()).ok().unwrap();
    assert!(errors.is_empty());
}

#[test]
fn failed_lookup_stops_validation() {
    let checks = vec![check("exit_codes.success", "a.wav"), check("cues.x", "b.wav"), check("cues.y", "c.wav")];
    let probes = vec![
        PathProbe::Missing,
        PathProbe::Unavailable("Permission denied (os error 13)".to_string()),
        PathProbe::Unavailable("other".to_string()),
    ];
    match handle_validate_config(&checks, &probes) {
        Err(e) => assert_eq!(
            e.message(),
            "couldn't access metadata for file associated with cues.x: 'b.wav' - Permission denied (os error 13)"
        ),
        Ok(_) => panic!("expected an error"),
    }
}

#[test]
fn many_errors_are_numbered_past_nine() {
    let errors: Vec<String> = (0..12).map(|i| format!("e{}", i)).collect();
    let report = validation_report(&errors);
    assert!(report.starts_with("found 12 validation errors:\n  1. e0\n"));
    assert!(report.ends_with("\n  10. e9\n  11. e10\n  12. e11"));
}

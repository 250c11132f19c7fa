use ting::config::{Config, ExitCodeSounds};
use ting::cue_map::CueMap;
use ting::play::{
    parse_args_and_config, plan_play, read_file_for_exit_code, AudioSource, FileRead, PlayArgs, PlayData, PlayError,
    PlayInputKind, PlayKind, PlayPlan, SoundFile, SoundPlan,
};

fn cue_map(entries: &[(&str, &str)]) -> CueMap {
    let mut cues = CueMap::new();
    for (name, path) in entries {
        cues.insert(name.to_string(), path.to_string());
    }
    cues
}

/// Plans, then "reads" each needed file with `read`, then builds the play data.
fn resolve(
    args: PlayArgs,
    config: Option<Config>,
    read: impl Fn(&str) -> FileRead,
) -> Result<PlayData, String> {
    let (plan, _) = parse_args_and_config(args, config).map_err(|e| e.message())?;
    let reads: Vec<FileRead> = plan.files_to_read().iter().map(|p| read(p)).collect();
    plan.into_play_data(reads).map_err(|e| e.message())
}

fn wav(path: &str) -> FileRead {
    FileRead::Contents(path.as_bytes().to_vec())
}

fn missing(_: &str) -> FileRead {
    FileRead::Failed("No such file or directory (os error 2)".to_string())
}

#[test]
fn parsing_exit_code_with_no_config_uses_builtin_sounds() {
    let args = PlayArgs { input_kind: PlayInputKind::ExitCode(0), match_exit_code: true };
    let data = resolve(args, None, wav).expect("parsing should've succeeded");
    match data.kind {
        PlayKind::ExitCode { code, success, error } => {
            assert_eq!(code, 0);
            assert!(matches!(success, AudioSource::Builtin));
            assert!(matches!(error, AudioSource::Builtin));
        }
        _ => panic!("expected an exit code"),
    }
}

#[test]
fn parsing_config_with_no_custom_exit_codes_uses_builtin_sounds() {
    let args = PlayArgs { input_kind: PlayInputKind::ExitCode(1), match_exit_code: false };
    let config =
        Some(Config { exit_codes: None, cues: cue_map(&[("test-cue", "/path/to/test.wav")]) });
    let data = resolve(args, config, wav).expect("parsing should've succeeded");
    match data.kind {
        PlayKind::ExitCode { code, success, error } => {
            assert_eq!(code, 1);
            assert!(matches!(success, AudioSource::Builtin));
            assert!(matches!(error, AudioSource::Builtin));
        }
        _ => panic!("expected an exit code"),
    }
}

#[test]
fn parsing_config_with_custom_success_code_sounds_works() {
    let args = PlayArgs { input_kind: PlayInputKind::ExitCode(0), match_exit_code: true };
    let config = Some(Config {
        exit_codes: Some(ExitCodeSounds {
            success: Some("src/cmds/assets/audio/success.wav".to_string()),
            error: None,
        }),
        cues: CueMap::new(),
    });
    let data = resolve(args, config, wav).expect("parsing should've succeeded");
    match data.kind {
        PlayKind::ExitCode { code, success, error } => {
            assert_eq!(code, 0);
            match success {
                AudioSource::External(bytes) => {
                    assert_eq!(bytes, b"src/cmds/assets/audio/success.wav".to_vec())
                }
                _ => panic!("expected an external success sound"),
            }
            assert!(matches!(error, AudioSource::Builtin));
        }
        _ => panic!("expected an exit code"),
    }
}

#[test]
fn parsing_config_with_custom_error_code_sounds_works() {
    let args = PlayArgs { input_kind: PlayInputKind::ExitCode(1), match_exit_code: false };
    let config = Some(Config {
        exit_codes: Some(ExitCodeSounds {
            success: None,
            error: Some("src/cmds/assets/audio/error.wav".to_string()),
        }),
        cues: CueMap::new(),
    });
    let data = resolve(args, config, wav).expect("parsing should've succeeded");
    match data.kind {
        PlayKind::ExitCode { code, success, error } => {
            assert_eq!(code, 1);
            assert!(matches!(success, AudioSource::Builtin));
            match error {
                AudioSource::External(bytes) => {
                    assert_eq!(bytes, b"src/cmds/assets/audio/error.wav".to_vec())
                }
                _ => panic!("expected an external error sound"),
            }
        }
        _ => panic!("expected an exit code"),
    }
}

#[test]
fn parsing_config_with_custom_exit_code_sounds_works() {
    let args = PlayArgs { input_kind: PlayInputKind::ExitCode(0), match_exit_code: true };
    let config = Some(Config {
        exit_codes: Some(ExitCodeSounds {
            success: Some("src/cmds/assets/audio/success.wav".to_string()),
            error: Some("src/cmds/assets/audio/error.wav".to_string()),
        }),
        cues: CueMap::new(),
    });
    let data = resolve(args, config, wav).expect("parsing should've succeeded");
    match data.kind {
        PlayKind::ExitCode { code, success, error } => {
            assert_eq!(code, 0);
            assert!(matches!(success, AudioSource::External(_)));
            assert!(matches!(error, AudioSource::External(_)));
        }
        _ => panic!("expected an exit code"),
    }
}

#[test]
fn parsing_config_with_valid_cue_works() {
    let args = PlayArgs {
        input_kind: PlayInputKind::Cue("build-success".to_string()),
        match_exit_code: true,
    };
    let config = Some(Config {
        exit_codes: None,
        cues: cue_map(&[("build-success", "src/cmds/assets/audio/success.wav")]),
    });
    let data = resolve(args, config, wav).expect("parsing should've succeeded");
    match data.kind {
        PlayKind::Cue(bytes) => assert_eq!(bytes, b"src/cmds/assets/audio/success.wav".to_vec()),
        _ => panic!("expected a cue"),
    }
}

#[test]
fn parsing_cue_with_no_config_fails() {
    let args =
        PlayArgs { input_kind: PlayInputKind::Cue("test-cue".to_string()), match_exit_code: true };
    let error = resolve(args, None, wav).expect_err("parsing should've failed");
    assert_eq!(error, "no cues configured");
}

#[test]
fn parsing_cue_absent_in_config_fails() {
    let args = PlayArgs {
        input_kind: PlayInputKind::Cue("nonexistent-cue".to_string()),
        match_exit_code: true,
    };
    let config =
        Some(Config { exit_codes: None, cues: cue_map(&[("other-cue", "/path/to/other.wav")]) });
    let error = resolve(args, config, wav).expect_err("parsing should've failed");
    assert_eq!(error, "cue not found: 'nonexistent-cue'");
}

#[test]
fn parsing_exit_code_with_missing_file_fails() {
    let args = PlayArgs { input_kind: PlayInputKind::ExitCode(0), match_exit_code: true };
    let config = Some(Config {
        exit_codes: Some(ExitCodeSounds {
            success: Some("/nonexistent/path/success.wav".to_string()),
            error: None,
        }),
        cues: CueMap::new(),
    });
    let error = resolve(args, config, missing).expect_err("parsing should've failed");
    assert_eq!(
        error,
        r#"couldn't read file configured for success exit code ("/nonexistent/path/success.wav"): No such file or directory (os error 2)"#
    );
}

#[test]
fn parsing_cue_with_missing_file_fails() {
    let args =
        PlayArgs { input_kind: PlayInputKind::Cue("test-cue".to_string()), match_exit_code: true };
    let config = Some(Config {
        exit_codes: None,
        cues: cue_map(&[("test-cue", "/nonexistent/path/cue.wav")]),
    });
    let error = resolve(args, config, missing).expect_err("parsing should've failed");
    assert_eq!(
        error,
        "couldn't read file configured for cue test-cue ('/nonexistent/path/cue.wav'): No such file or directory (os error 2)"
    );
}

// ---- further cases ----

#[test]
fn behaviours_follow_the_request() {
    let args = PlayArgs { input_kind: PlayInputKind::ExitCode(3), match_exit_code: false };
    let (_, behaviours) = parse_args_and_config(args, None).unwrap();
    assert!(!behaviours.match_exit_code);
    let args = PlayArgs { input_kind: PlayInputKind::ExitCode(3), match_exit_code: true };
    let (_, behaviours) = parse_args_and_config(args, None).unwrap();
    assert!(behaviours.match_exit_code);
}

#[test]
fn sound_paths_are_expanded_against_the_home_directory() {
    let args = PlayArgs { input_kind: PlayInputKind::Cue("chime".to_string()), match_exit_code: true };
    let config = Some(Config { exit_codes: None, cues: cue_map(&[("chime", "~/sounds/chime.wav")]) });
    let (plan, _) = plan_play(args, config, Some("/home/user")).unwrap();
    match plan {
        PlayPlan::Cue { cue, path } => {
            assert_eq!(cue, "chime");
            assert_eq!(path, "/home/user/sounds/chime.wav");
        }
        _ => panic!("expected a cue"),
    }
}

#[test]
fn files_are_read_success_first() {
    let args = PlayArgs { input_kind: PlayInputKind::ExitCode(1), match_exit_code: true };
    let config = Some(Config {
        exit_codes: Some(ExitCodeSounds {
            success: Some("~/s.wav".to_string()),
            error: Some("/e.wav".to_string()),
        }),
        cues: CueMap::new(),
    });
    let (plan, _) = plan_play(args, config, Some("/h/")).unwrap();
    assert_eq!(plan.files_to_read(), vec!["/h/s.wav".to_string(), "/e.wav".to_string()]);
    match &plan {
        PlayPlan::ExitCode { success: SoundPlan::File(_), error: SoundPlan::File(_), code } => {
            assert_eq!(*code, 1)
        }
        _ => panic!("expected both sounds from files"),
    }
    // when both files fail, the success file is reported
    let error = plan
        .into_play_data(vec![
            FileRead::Failed("denied".to_string()),
            FileRead::Failed("gone".to_string()),
        ])
        .err()
        .unwrap();
    assert_eq!(
        error.message(),
        r#"couldn't read file configured for success exit code ("/h/s.wav"): denied"#
    );
}

#[test]
fn error_sound_failure_is_reported() {
    let error = PlayKind::exit_code(
        2,
        Some(SoundFile { path: "a.wav".to_string(), read: FileRead::Contents(vec![1]) }),
        Some(SoundFile { path: "b.wav".to_string(), read: FileRead::Failed("boom".to_string()) }),
    )
    .err()
    .unwrap();
    match &error {
        PlayError::ExitCodeSoundUnreadable { success, path, cause } => {
            assert!(!success);
            assert_eq!(path, "b.wav");
            assert_eq!(cause, "boom");
        }
        _ => panic!("expected an unreadable error sound"),
    }
    assert_eq!(
        error.message(),
        r#"couldn't read file configured for error exit code ("b.wav"): boom"#
    );
}

#[test]
fn builtin_sounds_for_an_exit_code() {
    match PlayKind::exit_code_with_builtin_sounds(-7) {
        PlayKind::ExitCode { code, success, error } => {
            assert_eq!(code, -7);
            assert!(matches!(success, AudioSource::Builtin));
            assert!(matches!(error, AudioSource::Builtin));
        }
        _ => panic!("expected an exit code"),
    }
    match PlayKind::exit_code(5, None, None).ok().unwrap() {
        PlayKind::ExitCode { code, success, error } => {
            assert_eq!(code, 5);
            assert!(matches!(success, AudioSource::Builtin));
            assert!(matches!(error, AudioSource::Builtin));
        }
        _ => panic!("expected an exit code"),
    }
}

#[test]
fn reading_a_sound_file_for_an_exit_code() {
    let bytes = read_file_for_exit_code(
        false,
        SoundFile { path: "/s/e.wav".to_string(), read: FileRead::Contents(vec![0, 1, 2, 255]) },
    )
    .ok()
    .unwrap();
    assert_eq!(bytes, vec![0, 1, 2, 255]);
    let error = read_file_for_exit_code(
        true,
        SoundFile { path: "/s/x.wav".to_string(), read: FileRead::Failed("gone".to_string()) },
    )
    .err()
    .unwrap();
    assert_eq!(error.headline(), r#"couldn't read file configured for success exit code ("/s/x.wav")"#);
    assert_eq!(error.cause(), Some("gone".to_string()));
    assert_eq!(error.message(), r#"couldn't read file configured for success exit code ("/s/x.wav"): gone"#);
}

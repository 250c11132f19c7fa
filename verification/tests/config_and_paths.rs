use ting::config::{config_step, locate_config, locate_user_config, ConfigError, ConfigLocation, ConfigStep, PathProbe};
use ting::cue_map::CueMap;
use ting::input::parse_i32;
use ting::order::{compare_names, NameOrder};
use ting::paths::{config_path_in, expand_tilde, expand_tilde_with_home, join_path, path_below_home};
use ting::play::PlayInputKind;

fn user(path: &str) -> ConfigLocation {
    locate_config(Some(path.to_string())).ok().unwrap()
}

fn failure(step: ConfigStep) -> String {
    match step {
        ConfigStep::Fail(e) => e.message(),
        _ => panic!("expected a failure"),
    }
}

#[test]
fn getting_config_from_non_existent_file_fails() {
    let location = user("src/config/testdata/does-not-exist.toml");
    let error = failure(config_step(location, PathProbe::Missing));
    assert_eq!(error, "no file exists at path 'src/config/testdata/does-not-exist.toml'");
}

#[test]
fn getting_config_from_a_non_file_fails() {
    let location = user("src/config/testdata/not-a-file");
    let error = failure(config_step(location, PathProbe::NotAFile));
    assert_eq!(error, "provided path is not a file: 'src/config/testdata/not-a-file'");
}

#[test]
fn a_regular_file_is_read() {
    let location = user("src/config/testdata/valid-config.toml");
    match config_step(location, PathProbe::File) {
        ConfigStep::Read(p) => assert_eq!(p, "src/config/testdata/valid-config.toml"),
        _ => panic!("expected a read"),
    }
}

#[test]
fn missing_default_config_means_no_config() {
    let location = ConfigLocation { path: "/c/ting/ting.toml".to_string(), user_provided: false };
    assert!(matches!(config_step(location, PathProbe::Missing), ConfigStep::NoConfig));
    let location = ConfigLocation { path: "/c/ting/ting.toml".to_string(), user_provided: false };
    assert_eq!(
        failure(config_step(location, PathProbe::NotAFile)),
        "default config path is not a file: '/c/ting/ting.toml'"
    );
    let location = ConfigLocation { path: "/c/ting/ting.toml".to_string(), user_provided: false };
    assert_eq!(
        failure(config_step(location, PathProbe::Unavailable("denied".to_string()))),
        "couldn't determine if config file exists: denied"
    );
}

#[test]
fn config_error_messages() {
    let e = ConfigError::ReadFailed { path: "a.toml".to_string(), cause: "denied".to_string() };
    assert_eq!(e.message(), "couldn't read config file at 'a.toml': denied");
    let e = ConfigError::ParseFailed { path: "a.toml".to_string(), cause: "bad".to_string() };
    assert_eq!(e.message(), "couldn't parse config file at 'a.toml': bad");
    let e = ConfigError::DefaultPathUnknown { cause: "could not locate home directory".to_string() };
    assert_eq!(
        e.message(),
        "couldn't get ting's default config path: could not locate home directory"
    );
}

#[test]
fn default_config_path_layout() {
    assert_eq!(config_path_in("/home/u/.config"), "/home/u/.config/ting/ting.toml");
    assert_eq!(config_path_in("/home/u/.config/"), "/home/u/.config/ting/ting.toml");
}

#[test]
fn joining_paths() {
    assert_eq!(join_path("/a", "b"), "/a/b");
    assert_eq!(join_path("/a/", "b"), "/a/b");
    assert_eq!(join_path("", "b"), "b");
    assert_eq!(join_path("/a", "/b"), "/b");
    assert_eq!(join_path("/a", ""), "/a/");
}

#[test]
fn tilde_expansion() {
    assert_eq!(expand_tilde_with_home("~/x/y.wav", Some("/home/u")), "/home/u/x/y.wav");
    assert_eq!(expand_tilde_with_home("~", Some("/home/u")), "/home/u/");
    assert_eq!(expand_tilde_with_home("~//x/", Some("/home/u")), "/home/u/x");
    assert_eq!(expand_tilde_with_home("~x/y", Some("/home/u")), "~x/y");
    assert_eq!(expand_tilde_with_home("/abs/~/y", Some("/home/u")), "/abs/~/y");
    assert_eq!(expand_tilde_with_home("~/x", None), "~/x");
    assert_eq!(path_below_home("~/a/b"), Some("a/b".to_string()));
    assert_eq!(path_below_home("a/~"), None);
    // paths that do not start with `~` are never changed
    assert_eq!(expand_tilde("relative/path.wav"), "relative/path.wav");
    assert_eq!(expand_tilde("/abs/path.wav"), "/abs/path.wav");
}

#[test]
fn cue_map_keeps_names_in_order() {
    let mut cues = CueMap::new();
    assert_eq!(cues.insert("test-cue".to_string(), "c.wav".to_string()), None);
    assert_eq!(cues.insert("build-fail".to_string(), "b.wav".to_string()), None);
    assert_eq!(cues.insert("build".to_string(), "a.wav".to_string()), None);
    assert_eq!(cues.len(), 3);
    let names: Vec<String> = (0..cues.len()).map(|i| cues.entry(i).0.clone()).collect();
    assert_eq!(names, vec!["build", "build-fail", "test-cue"]);
    assert_eq!(cues.get("build-fail"), Some(&"b.wav".to_string()));
    assert_eq!(cues.get("missing"), None);
}

#[test]
fn cue_map_insert_replaces() {
    let mut cues = CueMap::new();
    cues.insert("x".to_string(), "1.wav".to_string());
    assert_eq!(cues.insert("x".to_string(), "2.wav".to_string()), Some("1.wav".to_string()));
    assert_eq!(cues.len(), 1);
    assert_eq!(cues.get("x"), Some(&"2.wav".to_string()));
}

#[test]
fn names_compare_like_strings() {
    for (a, b) in [("a", "b"), ("a", "ab"), ("B", "a"), ("", "x"), ("build-fail", "build-success"), ("é", "z")] {
        let expected = a.cmp(b);
        let got = compare_names(a, b);
        match expected {
            std::cmp::Ordering::Less => assert_eq!(got, NameOrder::Before),
            std::cmp::Ordering::Equal => assert_eq!(got, NameOrder::Same),
            std::cmp::Ordering::Greater => assert_eq!(got, NameOrder::After),
        }
        assert_eq!(compare_names(b, a) == NameOrder::After, expected == std::cmp::Ordering::Less);
    }
    assert_eq!(compare_names("same", "same"), NameOrder::Same);
}

#[test]
fn exit_codes_parse_like_i32() {
    for s in ["0", "1", "-1", "+5", "007", "2147483647", "-2147483648", "2147483648", "-2147483649",
              "", "-", "+", "1a", " 1", "1 ", "--1", "99999999999999999999", "٣", "-0"] {
        assert_eq!(parse_i32(s), s.parse::<i32>().ok(), "input {:?}", s);
    }
}

#[test]
fn input_is_exit_code_or_cue() {
    assert!(matches!(PlayInputKind::from_input("0".to_string()), PlayInputKind::ExitCode(0)));
    assert!(matches!(PlayInputKind::from_input("-12".to_string()), PlayInputKind::ExitCode(-12)));
    match PlayInputKind::from_input("build-success".to_string()) {
        PlayInputKind::Cue(c) => assert_eq!(c, "build-success"),
        _ => panic!("expected a cue"),
    }
    match PlayInputKind::from_input("4294967296".to_string()) {
        PlayInputKind::Cue(c) => assert_eq!(c, "4294967296"),
        _ => panic!("expected a cue"),
    }
}

/// What stripping the `~` component off a path and joining the rest onto `home` gives,
/// computed with std's own path types.
fn std_expansion(path: &str, home: &str) -> String {
    let rest = std::path::Path::new(path).strip_prefix("~/").unwrap();
    std::path::Path::new(home).join(rest).to_string_lossy().into_owned()
}

#[test]
fn tilde_expansion_drops_dot_components_at_the_ends_like_std() {
    for path in [
        "~", "~/", "~/a", "~/./a", "~/a/.", "~/./a/./b/.", "~//.//a//", "~/.", "~/./", "~/..",
        "~/.a", "~/a.", "~/a/..", "~/a/./b", "~/.hidden/x.wav", "~/././", "~/sounds/./",
    ] {
        for home in ["/home/u", "/home/u/", "/"] {
            assert_eq!(
                expand_tilde_with_home(path, Some(home)),
                std_expansion(path, home),
                "path {:?} home {:?}",
                path,
                home
            );
        }
    }
    assert_eq!(expand_tilde_with_home("~/./a", Some("/home/u")), "/home/u/a");
    assert_eq!(expand_tilde_with_home("~/a/.", Some("/home/u")), "/home/u/a");
}

#[test]
fn config_errors_split_into_headline_and_cause() {
    let e = ConfigError::ParseFailed { path: "a.toml".to_string(), cause: "bad".to_string() };
    assert_eq!(e.headline(), "couldn't parse config file at 'a.toml'");
    assert_eq!(e.cause(), Some("bad".to_string()));
    let e = ConfigError::ExistenceUnknown { cause: "denied".to_string() };
    assert_eq!(e.headline(), "couldn't determine if config file exists");
    assert_eq!(e.message(), "couldn't determine if config file exists: denied");
    let e = ConfigError::NotAFile { path: "d".to_string() };
    assert_eq!(e.cause(), None);
    assert_eq!(e.headline(), e.message());
}

#[test]
fn home_relative_config_path_names_the_same_file_as_the_joined_path() {
    for home in ["/home/u", "/home/u/", "/"] {
        let written = locate_user_config("~/ting/ting.toml", Some(home));
        let joined = join_path(home, "ting/ting.toml");
        let spelled_out = locate_user_config(joined.as_str(), Some(home));
        assert!(written.user_provided && spelled_out.user_provided);
        assert_eq!(written.path, joined);
        assert_eq!(spelled_out.path, joined);
    }
}

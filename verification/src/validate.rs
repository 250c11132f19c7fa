//! Checking that the sound files a config names exist, and reporting what is wrong.
use vstd::prelude::*;

use crate::config::{append_quoted, quoted, Config, PathProbe};
use crate::cue_map::{ascending, entries_to_map, lemma_entries_to_map_at};
use crate::paths::{current_home_dir, expand_tilde_spec, expand_tilde_with_home};
use crate::text::{decimal, push_decimal};

verus! {

/// A sound file of the config: the setting that names it and its `~` expanded path.
#[derive(Debug)]
pub struct SoundFileCheck {
    pub name: String,
    pub path: String,
}

/// The sound file settings of a config, as (setting name, configured path), in the
/// order they are checked: the success sound, the error sound, then the cues in
/// ascending name order.
pub open spec fn sound_settings(config: &Config) -> Seq<(Seq<char>, Seq<char>)> {
    let exit = match config.exit_codes {
        Some(ec) => {
            let s = match ec.success {
                Some(p) => seq![("exit_codes.success"@, p@)],
                None => Seq::<(Seq<char>, Seq<char>)>::empty(),
            };
            let e = match ec.error {
                Some(p) => seq![("exit_codes.error"@, p@)],
                None => Seq::<(Seq<char>, Seq<char>)>::empty(),
            };
            s + e
        },
        None => Seq::<(Seq<char>, Seq<char>)>::empty(),
    };
    exit + config.cues.entry_seq().map_values(
        |e: (Seq<char>, Seq<char>)| ("cues."@ + e.0, e.1),
    )
}

/// `checks` are exactly the sound file settings of `config`, with their paths
/// expanded against the home directory `home`.
pub open spec fn checks_of(
    checks: Seq<SoundFileCheck>,
    config: &Config,
    home: Option<Seq<char>>,
) -> bool {
    let settings = sound_settings(config);
    &&& checks.len() == settings.len()
    &&& forall|i: int|
        0 <= i < checks.len() ==> {
            &&& (#[trigger] checks[i]).name@ == settings[i].0
            &&& checks[i].path@ == expand_tilde_spec(settings[i].1, home)
        }
}

fn push_check(checks: &mut Vec<SoundFileCheck>, name: &str, path: &str, home: Option<&str>)
    ensures
        final(checks)@.len() == old(checks)@.len() + 1,
        forall|i: int| 0 <= i < old(checks)@.len() ==> final(checks)@[i] == old(checks)@[i],
        final(checks)@.last().name@ == name@,
        final(checks)@.last().path@ == expand_tilde_spec(
            path@,
            match home {
                Some(h) => Some(h@),
                None => None,
            },
        ),
{
    checks.push(
        SoundFileCheck { name: String::from_str(name), path: expand_tilde_with_home(path, home) },
    );
}

/// `checks` are the sound file settings of `config`, expanded against some home directory.
pub open spec fn checks_of_some_home(checks: Seq<SoundFileCheck>, config: &Config) -> bool {
    exists|h: Option<Seq<char>>| checks_of(checks, config, h)
}

/// The sound file settings of `config`, each with its path expanded against `home`.
pub fn sound_file_checks_with_home(config: &Config, home: Option<&str>) -> (res: Vec<
    SoundFileCheck,
>)
    ensures
        checks_of(
            res@,
            config,
            match home {
                Some(h) => Some(h@),
                None => None,
            },
        ),
        res@.len() == configured_sound_count(config),
        forall|k: Seq<char>|
            #[trigger] config.cues@.dom().contains(k) ==> has_check(
                res@,
                "cues."@ + k,
                config.cues@[k],
                match home {
                    Some(h) => Some(h@),
                    None => None,
                },
            ),
{
    let ghost hv = match home {
        Some(h) => Some(h@),
        None => None,
    };
    let mut checks: Vec<SoundFileCheck> = Vec::new();
    match &config.exit_codes {
        Some(ec) => {
            match &ec.success {
                Some(p) => {
                    push_check(&mut checks, "exit_codes.success", p.as_str(), home);
                },
                None => {},
            }
            match &ec.error {
                Some(p) => {
                    push_check(&mut checks, "exit_codes.error", p.as_str(), home);
                },
                None => {},
            }
        },
        None => {},
    }
    let ghost settings = sound_settings(config);
    let ghost first = checks@.len();
    let n = config.cues.len();
    assert forall|i: int| 0 <= i < first implies {
        &&& (#[trigger] checks@[i]).name@ == settings[i].0
        &&& checks@[i].path@ == expand_tilde_spec(settings[i].1, hv)
    } by {}
    let mut i: usize = 0;
    while i < n
        invariant
            n == config.cues.entry_seq().len(),
            settings == sound_settings(config),
            first + n == settings.len(),
            i <= n,
            checks@.len() == first + i,
            forall|j: int|
                0 <= j < checks@.len() ==> {
                    &&& (#[trigger] checks@[j]).name@ == settings[j].0
                    &&& checks@[j].path@ == expand_tilde_spec(settings[j].1, hv)
                },
            hv == match home {
                Some(h) => Some(h@),
                None => None,
            },
        decreases n - i,
    {
        let (cue, path) = config.cues.entry(i);
        let mut name = String::from_str("cues.");
        name.append(cue.as_str());
        push_check(&mut checks, name.as_str(), path.as_str(), home);
        i = i + 1;
    }
    proof {
        law_every_configured_sound_is_checked(checks@, config, hv);
    }
    checks
}

/// Why a config could not be validated at all.
#[derive(Debug)]
pub enum ValidateError {
    /// There is no config at the default location.
    NoConfig,
    /// Whether a sound file exists could not be determined.
    ExistenceUnknown { name: String, path: String, cause: String },
}

impl ValidateError {
    pub open spec fn message_spec(&self) -> Seq<char> {
        match self {
            ValidateError::NoConfig => "no config found at default location"@,
            ValidateError::ExistenceUnknown { name, path, cause } =>
                "couldn't access metadata for file associated with "@ + name@ + ": "@ + quoted(
                path@,
            ) + " - "@ + cause@,
        }
    }

    /// The text of the error.
    pub fn message(&self) -> (res: String)
        ensures
            res@ == self.message_spec(),
    {
        match self {
            ValidateError::NoConfig => String::from_str("no config found at default location"),
            ValidateError::ExistenceUnknown { name, path, cause } => {
                let mut s = String::from_str("couldn't access metadata for file associated with ");
                s.append(name.as_str());
                s.append(": ");
                append_quoted(&mut s, path.as_str());
                s.append(" - ");
                s.append(cause.as_str());
                proof {
                    assert(s@ =~= self.message_spec());
                }
                s
            },
        }
    }
}

/// The sound file checks for the config found, or an error when there is none.
/// The paths are expanded against the current user's home directory.
pub fn validation_checks(maybe_config: &Option<Config>) -> (res: Result<Vec<SoundFileCheck>, ValidateError>)
    ensures
        maybe_config is None ==> res matches Err(ValidateError::NoConfig),
        maybe_config matches Some(config) ==> res matches Ok(checks) && checks_of_some_home(
            checks@,
            config,
        ),
{
    match maybe_config {
        None => Err(ValidateError::NoConfig),
        Some(config) => {
            let home = current_home_dir();
            let checks = match &home {
                Some(h) => {
                    let checks = sound_file_checks_with_home(config, Some(h.as_str()));
                    assert(checks_of(checks@, config, Some(h@)));
                    checks
                },
                None => {
                    let checks = sound_file_checks_with_home(config, None);
                    assert(checks_of(checks@, config, None));
                    checks
                },
            };
            assert(checks_of_some_home(checks@, config));
            Ok(checks)
        },
    }
}

/// The number of sound file settings a config has: one for each exit-code sound it
/// configures, and one for each cue.
pub open spec fn configured_sound_count(config: &Config) -> int {
    let (s, e) = match config.exit_codes {
        Some(ec) => (
            if ec.success is Some { 1int } else { 0int },
            if ec.error is Some { 1int } else { 0int },
        ),
        None => (0int, 0int),
    };
    s + e + config.cues@.len()
}

/// Some check is for the setting `name`, at `path` expanded against `home`.
pub open spec fn has_check(
    checks: Seq<SoundFileCheck>,
    name: Seq<char>,
    path: Seq<char>,
    home: Option<Seq<char>>,
) -> bool {
    exists|i: int|
        0 <= i < checks.len() && (#[trigger] checks[i]).name@ == name && checks[i].path@
            == expand_tilde_spec(path, home)
}

/// Every sound file a config names is checked, and nothing else is: the success
/// sound, the error sound and the file of each cue each have a check under the
/// setting's name, at the configured path `~` expanded against `home`, and there are
/// exactly as many checks as configured sound files.
pub proof fn law_every_configured_sound_is_checked(
    checks: Seq<SoundFileCheck>,
    config: &Config,
    home: Option<Seq<char>>,
)
    requires
        checks_of(checks, config, home),
        ascending(config.cues.entry_seq()),
    ensures
        checks.len() == configured_sound_count(config),
        match config.exit_codes {
            Some(ec) => (match ec.success {
                Some(p) => has_check(checks, "exit_codes.success"@, p@, home),
                None => true,
            }) && (match ec.error {
                Some(p) => has_check(checks, "exit_codes.error"@, p@, home),
                None => true,
            }),
            None => true,
        },
        forall|k: Seq<char>|
            #[trigger] config.cues@.dom().contains(k) ==> has_check(
                checks,
                "cues."@ + k,
                config.cues@[k],
                home,
            ),
{
    let settings = sound_settings(config);
    let es = config.cues.entry_seq();
    config.cues.lemma_view();
    config.cues.lemma_len_matches();
    let first = settings.len() - es.len();
    match config.exit_codes {
        Some(ec) => {
            match ec.success {
                Some(p) => {
                    assert(settings[0] == ("exit_codes.success"@, p@));
                    assert(checks[0].name@ == "exit_codes.success"@);
                },
                None => {},
            }
            match ec.error {
                Some(p) => {
                    let i = if ec.success is Some { 1int } else { 0int };
                    assert(settings[i] == ("exit_codes.error"@, p@));
                    assert(checks[i].name@ == "exit_codes.error"@);
                },
                None => {},
            }
        },
        None => {},
    }
    assert forall|k: Seq<char>| #[trigger] config.cues@.dom().contains(k) implies has_check(
        checks,
        "cues."@ + k,
        config.cues@[k],
        home,
    ) by {
        let j = choose|j: int| 0 <= j < es.len() && #[trigger] es[j].0 == k;
        lemma_entries_to_map_at(es, j);
        assert(settings[first + j] == ("cues."@ + es[j].0, es[j].1));
        assert(checks[first + j].name@ == "cues."@ + k);
    }
}

/// The validation error, if any, that a sound file with this probe result gives.
/// A lookup that fails is not a finding: it stops validation.
pub open spec fn finding(check: SoundFileCheck, probe: PathProbe) -> Seq<Seq<char>> {
    match probe {
        PathProbe::File => Seq::empty(),
        PathProbe::NotAFile => seq![
            "path associated with "@ + check.name@ + " is not a file: "@ + quoted(check.path@),
        ],
        PathProbe::Missing => seq![
            "file associated with "@ + check.name@ + " does not exist: "@ + quoted(check.path@),
        ],
        PathProbe::Unavailable(_) => Seq::empty(),
    }
}

/// The validation errors of the first `n` sound files, in order.
pub open spec fn findings(checks: Seq<SoundFileCheck>, probes: Seq<PathProbe>, n: nat) -> Seq<
    Seq<char>,
>
    decreases n,
{
    if n == 0 {
        Seq::empty()
    } else {
        findings(checks, probes, (n - 1) as nat) + finding(checks[n - 1], probes[n - 1])
    }
}

/// The validation errors of a config whose sound files `checks` were looked up
/// with the results `probes`: one error for each file that is missing or is not a
/// file, in order. If some lookup failed, validation stops with an error for the
/// first such file instead.
pub fn handle_validate_config(checks: &Vec<SoundFileCheck>, probes: &Vec<PathProbe>) -> (res: Result<
    Vec<String>,
    ValidateError,
>)
    requires
        checks.len() == probes.len(),
    ensures
        match res {
            Ok(errors) => {
                &&& forall|i: int| 0 <= i < probes.len() ==> !(#[trigger] probes@[i] is Unavailable)
                &&& errors@.map_values(|e: String| e@) == findings(
                    checks@,
                    probes@,
                    checks.len() as nat,
                )
            },
            Err(e) => exists|i: int|
                #![trigger checks@[i]]
                {
                    &&& 0 <= i < probes.len()
                    &&& forall|j: int| 0 <= j < i ==> !(#[trigger] probes@[j] is Unavailable)
                    &&& probes@[i] matches PathProbe::Unavailable(cause)
                    &&& e matches ValidateError::ExistenceUnknown { name, path, cause: c }
                    &&& name@ == checks@[i].name@
                    &&& path@ == checks@[i].path@
                    &&& c@ == cause@
                },
        },
{
    let n = checks.len();
    let mut errors: Vec<String> = Vec::new();
    let mut i: usize = 0;
    while i < n
        invariant
            n == checks.len(),
            n == probes.len(),
            i <= n,
            forall|j: int| 0 <= j < i ==> !(#[trigger] probes@[j] is Unavailable),
            errors@.map_values(|e: String| e@) == findings(checks@, probes@, i as nat),
        decreases n - i,
    {
        let check = &checks[i];
        match &probes[i] {
            PathProbe::File => {
                assert(errors@.map_values(|e: String| e@) =~= findings(
                    checks@,
                    probes@,
                    (i + 1) as nat,
                ));
            },
            PathProbe::NotAFile => {
                let mut s = String::from_str("path associated with ");
                s.append(check.name.as_str());
                s.append(" is not a file: ");
                append_quoted(&mut s, check.path.as_str());
                errors.push(s);
                assert(errors@.map_values(|e: String| e@) =~= findings(
                    checks@,
                    probes@,
                    (i + 1) as nat,
                ));
            },
            PathProbe::Missing => {
                let mut s = String::from_str("file associated with ");
                s.append(check.name.as_str());
                s.append(" does not exist: ");
                append_quoted(&mut s, check.path.as_str());
                errors.push(s);
                assert(errors@.map_values(|e: String| e@) =~= findings(
                    checks@,
                    probes@,
                    (i + 1) as nat,
                ));
            },
            PathProbe::Unavailable(cause) => {
                assert(checks@[i as int] == *check);
                return Err(
                    ValidateError::ExistenceUnknown {
                        name: check.name.clone(),
                        path: check.path.clone(),
                        cause: cause.clone(),
                    },
                );
            },
        }
        i = i + 1;
    }
    Ok(errors)
}

/// Validation finds nothing wrong exactly when every sound file looked up is a
/// regular file; each one that is missing or is not a file gives one error.
pub proof fn law_clean_validation(checks: Seq<SoundFileCheck>, probes: Seq<PathProbe>, n: nat)
    requires
        n <= checks.len(),
        n <= probes.len(),
        forall|i: int| 0 <= i < n ==> !(#[trigger] probes[i] is Unavailable),
    ensures
        findings(checks, probes, n).len() == 0 <==> forall|i: int|
            0 <= i < n ==> #[trigger] probes[i] is File,
        forall|i: int|
            0 <= i < n ==> (#[trigger] finding(checks[i], probes[i])).len() == if probes[i] is File {
                0int
            } else {
                1int
            },
    decreases n,
{
    if n > 0 {
        law_clean_validation(checks, probes, (n - 1) as nat);
        let last = (n - 1) as int;
        if findings(checks, probes, n).len() == 0 {
            assert forall|i: int| 0 <= i < n implies #[trigger] probes[i] is File by {
                if i < last {
                    assert(findings(checks, probes, (n - 1) as nat).len() == 0);
                } else {
                    assert(!(probes[last] is Unavailable));
                }
            }
        }
    }
}

/// The lines listing several validation errors, numbered from 1, for the first `k` errors.
pub open spec fn numbered_lines(errors: Seq<Seq<char>>, k: nat) -> Seq<char>
    decreases k,
{
    if k == 0 {
        Seq::empty()
    } else {
        let line = "  "@ + decimal(k) + ". "@ + errors[k - 1];
        if k == 1 {
            line
        } else {
            numbered_lines(errors, (k - 1) as nat) + "\n"@ + line
        }
    }
}

/// What is reported after validating a config with these errors.
pub open spec fn report_spec(errors: Seq<Seq<char>>) -> Seq<char> {
    if errors.len() == 0 {
        "config looks good ✅"@
    } else if errors.len() == 1 {
        errors[0]
    } else {
        "found "@ + decimal(errors.len()) + " validation errors:\n"@ + numbered_lines(
            errors,
            errors.len(),
        )
    }
}

/// The report on a validated config: that it looks good; else the failure it is
/// reported as, which is the single error itself, or the count of errors followed by
/// the errors numbered from 1.
pub fn validation_report(errors: &Vec<String>) -> (res: String)
    ensures
        res@ == report_spec(errors@.map_values(|e: String| e@)),
{
    let ghost ev = errors@.map_values(|e: String| e@);
    let n = errors.len();
    if n == 0 {
        return String::from_str("config looks good ✅");
    }
    if n == 1 {
        return errors[0].clone();
    }
    let mut s = String::from_str("found ");
    push_decimal(&mut s, n);
    s.append(" validation errors:\n");
    let ghost head = s@;
    let mut k: usize = 0;
    while k < n
        invariant
            n == errors.len(),
            ev == errors@.map_values(|e: String| e@),
            k <= n,
            s@ == head + numbered_lines(ev, k as nat),
        decreases n - k,
    {
        if k > 0 {
            s.append("\n");
        }
        s.append("  ");
        push_decimal(&mut s, k + 1);
        s.append(". ");
        s.append(errors[k].as_str());
        proof {
            assert(ev[k as int] == errors@[k as int]@);
            assert(s@ =~= head + numbered_lines(ev, (k + 1) as nat));
        }
        k = k + 1;
    }
    s
}

} // verus!

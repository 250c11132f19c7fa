//! What to play: from the command line input and the config to the sound data.
//!
//! Deciding what to play happens in two steps around reading sound files: first
//! [`parse_args_and_config`] settles which sound files are needed, then, once they
//! have been read, [`PlayPlan::into_play_data`] turns what was read into the data
//! to play.
use vstd::prelude::*;

use crate::config::{quoted, Config};
use crate::paths::{
    below_home, current_home_dir, ends_with_skippable, expand_tilde_spec, expand_tilde_with_home,
    join_spec, law_home_relative_path, starts_with_skippable,
};

verus! {

/// Where a sound comes from.
#[derive(Debug)]
pub enum AudioSource {
    /// The sound that ships with ting.
    Builtin,
    /// The contents of a sound file.
    External(Vec<u8>),
}

/// What to play.
#[derive(Debug)]
pub enum PlayKind {
    /// The sound for an exit code: `success` for 0, `error` for anything else.
    ExitCode { code: i32, success: AudioSource, error: AudioSource },
    /// The contents of a cue's sound file.
    Cue(Vec<u8>),
}

/// The sound data to play.
#[derive(Debug)]
pub struct PlayData {
    pub kind: PlayKind,
}

/// How ting behaves around playing.
#[derive(Debug)]
pub struct PlayBehaviours {
    /// Whether ting exits with the exit code it was given.
    pub match_exit_code: bool,
}

/// What the user asked to play for.
#[derive(Debug, Clone)]
pub enum PlayInputKind {
    ExitCode(i32),
    Cue(String),
}

/// The play request.
#[derive(Debug)]
pub struct PlayArgs {
    pub input_kind: PlayInputKind,
    pub match_exit_code: bool,
}

/// The result of reading a sound file.
#[derive(Debug)]
pub enum FileRead {
    /// The file's contents.
    Contents(Vec<u8>),
    /// The file could not be read, for this reason.
    Failed(String),
}

/// A sound file that was read: the (`~` expanded) path it was read from, and what
/// reading it gave.
#[derive(Debug)]
pub struct SoundFile {
    pub path: String,
    pub read: FileRead,
}

/// Why nothing can be played.
#[derive(Debug)]
pub enum PlayError {
    /// A cue was asked for but there is no config.
    NoCuesConfigured,
    /// The config has no cue of this name.
    CueNotFound { cue: String },
    /// The sound file for the success (or error) exit code could not be read.
    ExitCodeSoundUnreadable { success: bool, path: String, cause: String },
    /// The sound file of a cue could not be read.
    CueSoundUnreadable { cue: String, path: String, cause: String },
}

impl PlayError {
    /// The error's own line, without its cause.
    pub open spec fn headline_spec(&self) -> Seq<char> {
        match self {
            PlayError::NoCuesConfigured => "no cues configured"@,
            PlayError::CueNotFound { cue } => "cue not found: "@ + quoted(cue@),
            PlayError::ExitCodeSoundUnreadable { success, path, .. } =>
                "couldn't read file configured for "@ + (if *success {
                "success"@
            } else {
                "error"@
            }) + " exit code (\""@ + path@ + "\")"@,
            PlayError::CueSoundUnreadable { cue, path, .. } =>
                "couldn't read file configured for cue "@ + cue@ + " ("@ + quoted(path@) + ")"@,
        }
    }

    /// The underlying cause the error reports, if it has one.
    pub open spec fn cause_spec(&self) -> Option<Seq<char>> {
        match self {
            PlayError::ExitCodeSoundUnreadable { cause, .. } => Some(cause@),
            PlayError::CueSoundUnreadable { cause, .. } => Some(cause@),
            _ => None,
        }
    }

    /// The text of the error: its own line, then `: ` and its cause where it has one.
    pub open spec fn message_spec(&self) -> Seq<char> {
        match self.cause_spec() {
            Some(c) => self.headline_spec() + ": "@ + c,
            None => self.headline_spec(),
        }
    }

    /// The error's own line, without its cause.
    pub fn headline(&self) -> (res: String)
        ensures
            res@ == self.headline_spec(),
    {
        match self {
            PlayError::NoCuesConfigured => String::from_str("no cues configured"),
            PlayError::CueNotFound { cue } => {
                let mut s = String::from_str("cue not found: ");
                crate::config::append_quoted(&mut s, cue.as_str());
                s
            },
            PlayError::ExitCodeSoundUnreadable { success, path, .. } => {
                let mut s = String::from_str("couldn't read file configured for ");
                if *success {
                    s.append("success");
                } else {
                    s.append("error");
                }
                s.append(" exit code (\"");
                s.append(path.as_str());
                s.append("\")");
                proof {
                    assert(s@ =~= self.headline_spec());
                }
                s
            },
            PlayError::CueSoundUnreadable { cue, path, .. } => {
                let mut s = String::from_str("couldn't read file configured for cue ");
                s.append(cue.as_str());
                s.append(" (");
                crate::config::append_quoted(&mut s, path.as_str());
                s.append(")");
                proof {
                    assert(s@ =~= self.headline_spec());
                }
                s
            },
        }
    }

    /// The underlying cause the error reports, if it has one.
    pub fn cause(&self) -> (res: Option<String>)
        ensures
            match (res, self.cause_spec()) {
                (Some(r), Some(c)) => r@ == c,
                (None, None) => true,
                _ => false,
            },
    {
        match self {
            PlayError::ExitCodeSoundUnreadable { cause, .. } => Some(cause.clone()),
            PlayError::CueSoundUnreadable { cause, .. } => Some(cause.clone()),
            _ => None,
        }
    }

    /// The text of the error: its own line, then `: ` and its cause where it has one.
    pub fn message(&self) -> (res: String)
        ensures
            res@ == self.message_spec(),
    {
        let mut s = self.headline();
        match self.cause() {
            Some(c) => {
                s.append(": ");
                s.append(c.as_str());
            },
            None => {},
        }
        s
    }
}

/// `source` is what a configured sound file gives: the built-in sound when none is
/// configured, else the contents that were read.
pub open spec fn audio_from(source: AudioSource, file: Option<SoundFile>) -> bool {
    match file {
        None => source is Builtin,
        Some(f) => match (source, f.read) {
            (AudioSource::External(bytes), FileRead::Contents(contents)) => bytes@ == contents@,
            _ => false,
        },
    }
}

/// `file` is configured and could not be read.
pub open spec fn unreadable(file: Option<SoundFile>) -> bool {
    file matches Some(f) && f.read is Failed
}

/// `e` reports that `file`, configured for the success (or error) exit code, could
/// not be read.
pub open spec fn reports_unreadable(e: PlayError, success: bool, file: Option<SoundFile>) -> bool {
    match file {
        Some(f) => match (e, f.read) {
            (
                PlayError::ExitCodeSoundUnreadable { success: s, path, cause },
                FileRead::Failed(c),
            ) => s == success && path@ == f.path@ && cause@ == c@,
            _ => false,
        },
        None => false,
    }
}

/// The contents of a sound file configured for an exit code, whole and unchanged,
/// or the error that reports it could not be read, naming the file and the cause.
pub fn read_file_for_exit_code(success: bool, file: SoundFile) -> (res: Result<Vec<u8>, PlayError>)
    ensures
        match (res, file.read) {
            (Ok(bytes), FileRead::Contents(c)) => bytes@ == c@,
            (Err(e), FileRead::Failed(c)) => {
                &&& reports_unreadable(e, success, Some(file))
                &&& e.message_spec() == "couldn't read file configured for "@ + (if success {
                    "success"@
                } else {
                    "error"@
                }) + " exit code (\""@ + file.path@ + "\")"@ + ": "@ + c@
            },
            _ => false,
        },
{
    match file.read {
        FileRead::Contents(bytes) => Ok(bytes),
        FileRead::Failed(cause) => Err(
            PlayError::ExitCodeSoundUnreadable { success, path: file.path, cause },
        ),
    }
}

impl PlayKind {
    /// The built-in sounds for an exit code.
    pub fn exit_code_with_builtin_sounds(code: i32) -> (res: Self)
        ensures
            res matches PlayKind::ExitCode { code: c, success, error } && c == code
                && success is Builtin && error is Builtin,
    {
        PlayKind::ExitCode { code, success: AudioSource::Builtin, error: AudioSource::Builtin }
    }

    /// The sounds for an exit code, from the sound files configured for success and
    /// for error (the built-in sound where none is). A file that could not be read
    /// is an error, the success file's first.
    pub fn exit_code(code: i32, success_sound_file: Option<SoundFile>, error_sound_file: Option<
        SoundFile,
    >) -> (res: Result<Self, PlayError>)
        ensures
            match res {
                Ok(kind) => {
                    &&& !unreadable(success_sound_file)
                    &&& !unreadable(error_sound_file)
                    &&& kind matches PlayKind::ExitCode { code: c, success, error }
                    &&& c == code
                    &&& audio_from(success, success_sound_file)
                    &&& audio_from(error, error_sound_file)
                },
                Err(e) => if unreadable(success_sound_file) {
                    reports_unreadable(e, true, success_sound_file)
                } else {
                    unreadable(error_sound_file) && reports_unreadable(e, false, error_sound_file)
                },
            },
    {
        let success = match success_sound_file {
            None => AudioSource::Builtin,
            Some(f) => match read_file_for_exit_code(true, f) {
                Ok(bytes) => AudioSource::External(bytes),
                Err(e) => {
                    return Err(e);
                },
            },
        };
        let error = match error_sound_file {
            None => AudioSource::Builtin,
            Some(f) => match read_file_for_exit_code(false, f) {
                Ok(bytes) => AudioSource::External(bytes),
                Err(e) => {
                    return Err(e);
                },
            },
        };
        Ok(PlayKind::ExitCode { code, success, error })
    }
}

/// Where a sound will come from, before any file is read.
#[derive(Debug)]
pub enum SoundPlan {
    Builtin,
    /// The sound file at this (`~` expanded) path.
    File(String),
}

/// What to play, with the sound files still to be read.
#[derive(Debug)]
pub enum PlayPlan {
    ExitCode { code: i32, success: SoundPlan, error: SoundPlan },
    Cue { cue: String, path: String },
}

/// `plan` is what the configured sound file `configured` gives, its path expanded
/// against `home`.
pub open spec fn sound_planned(
    plan: SoundPlan,
    configured: Option<String>,
    home: Option<Seq<char>>,
) -> bool {
    match configured {
        None => plan is Builtin,
        Some(p) => plan matches SoundPlan::File(path) && path@ == expand_tilde_spec(p@, home),
    }
}

/// `res` is what the play request `args` and the config `maybe_config` call for,
/// with sound file paths expanded against `home`: an exit code plays the configured
/// sounds, or the built-in ones; a cue plays its configured sound file, and asking
/// for a cue that is not configured is an error.
pub open spec fn planned(
    args: PlayArgs,
    maybe_config: Option<Config>,
    home: Option<Seq<char>>,
    res: Result<(PlayPlan, PlayBehaviours), PlayError>,
) -> bool {
    match res {
        Err(e) => match args.input_kind {
            PlayInputKind::ExitCode(_) => false,
            PlayInputKind::Cue(cue) => match maybe_config {
                None => e is NoCuesConfigured,
                Some(config) => !config.cues@.dom().contains(cue@) && (e matches PlayError::CueNotFound {
                    cue: c,
                } && c@ == cue@),
            },
        },
        Ok((plan, behaviours)) => behaviours.match_exit_code == args.match_exit_code
            && match args.input_kind {
            PlayInputKind::ExitCode(code) => match plan {
                PlayPlan::ExitCode { code: c, success, error } => c == code && match maybe_config {
                    None => success is Builtin && error is Builtin,
                    Some(config) => match config.exit_codes {
                        None => success is Builtin && error is Builtin,
                        Some(sounds) => sound_planned(success, sounds.success, home)
                            && sound_planned(error, sounds.error, home),
                    },
                },
                _ => false,
            },
            PlayInputKind::Cue(cue) => match (plan, maybe_config) {
                (PlayPlan::Cue { cue: c, path }, Some(config)) => {
                    &&& c@ == cue@
                    &&& config.cues@.dom().contains(cue@)
                    &&& path@ == expand_tilde_spec(config.cues@[cue@], home)
                },
                _ => false,
            },
        },
    }
}

/// `res` is what `args` and `maybe_config` call for, with the paths expanded
/// against some home directory.
pub open spec fn planned_for_some_home(
    args: PlayArgs,
    maybe_config: Option<Config>,
    res: Result<(PlayPlan, PlayBehaviours), PlayError>,
) -> bool {
    exists|home: Option<Seq<char>>| planned(args, maybe_config, home, res)
}

fn plan_sound(configured: &Option<String>, home: Option<&str>) -> (res: SoundPlan)
    ensures
        sound_planned(
            res,
            *configured,
            match home {
                Some(h) => Some(h@),
                None => None,
            },
        ),
{
    match configured {
        None => SoundPlan::Builtin,
        Some(p) => SoundPlan::File(expand_tilde_with_home(p.as_str(), home)),
    }
}

/// What the play request and the config call for, with sound file paths expanded
/// against the home directory `home`.
pub fn plan_play(args: PlayArgs, maybe_config: Option<Config>, home: Option<&str>) -> (res: Result<
    (PlayPlan, PlayBehaviours),
    PlayError,
>)
    ensures
        planned(
            args,
            maybe_config,
            match home {
                Some(h) => Some(h@),
                None => None,
            },
            res,
        ),
{
    let behaviours = PlayBehaviours { match_exit_code: args.match_exit_code };
    let plan = match &maybe_config {
        Some(config) => match &args.input_kind {
            PlayInputKind::ExitCode(code) => match &config.exit_codes {
                Some(sounds) => PlayPlan::ExitCode {
                    code: *code,
                    success: plan_sound(&sounds.success, home),
                    error: plan_sound(&sounds.error, home),
                },
                None => PlayPlan::ExitCode {
                    code: *code,
                    success: SoundPlan::Builtin,
                    error: SoundPlan::Builtin,
                },
            },
            PlayInputKind::Cue(cue) => match config.cues.get(cue.as_str()) {
                Some(path) => PlayPlan::Cue {
                    cue: cue.clone(),
                    path: expand_tilde_with_home(path.as_str(), home),
                },
                None => {
                    return Err(PlayError::CueNotFound { cue: cue.clone() });
                },
            },
        },
        None => match &args.input_kind {
            PlayInputKind::ExitCode(code) => PlayPlan::ExitCode {
                code: *code,
                success: SoundPlan::Builtin,
                error: SoundPlan::Builtin,
            },
            PlayInputKind::Cue(_) => {
                return Err(PlayError::NoCuesConfigured);
            },
        },
    };
    Ok((plan, behaviours))
}

/// What the play request and the config call for, with sound file paths expanded
/// against the current user's home directory.
pub fn parse_args_and_config(args: PlayArgs, maybe_config: Option<Config>) -> (res: Result<
    (PlayPlan, PlayBehaviours),
    PlayError,
>)
    ensures
        planned_for_some_home(args, maybe_config, res),
{
    let home = current_home_dir();
    match home {
        Some(h) => {
            let res = plan_play(args, maybe_config, Some(h.as_str()));
            assert(planned(args, maybe_config, Some(h@), res));
            res
        },
        None => {
            let res = plan_play(args, maybe_config, None);
            assert(planned(args, maybe_config, None, res));
            res
        },
    }
}

/// An exit code with no sounds configured for exit codes plays the built-in
/// sounds, and no sound file is read for it.
pub proof fn law_unconfigured_exit_code_is_builtin(
    args: PlayArgs,
    maybe_config: Option<Config>,
    home: Option<Seq<char>>,
    res: Result<(PlayPlan, PlayBehaviours), PlayError>,
)
    requires
        planned(args, maybe_config, home, res),
        args.input_kind is ExitCode,
        maybe_config matches Some(config) ==> config.exit_codes is None,
    ensures
        res matches Ok((plan, _)) && plan matches PlayPlan::ExitCode { success, error, .. }
            && success is Builtin && error is Builtin,
        res matches Ok((plan, _)) && files_needed(plan).len() == 0,
{
    match res {
        Ok((plan, _)) => {
            assert(files_needed(plan) =~= Seq::<Seq<char>>::empty());
        },
        Err(_) => {},
    }
}

/// With the home directory `home` known, a cue configured as `~/rest` is played
/// from `home` joined with `rest`, never from the literal `~` path; the same goes
/// for the sound files of exit codes. `rest` is relative with no separator or `.`
/// component at either end, and `home` is not empty and does not start with `~`.
pub proof fn law_home_paths_are_expanded(
    args: PlayArgs,
    maybe_config: Option<Config>,
    home: Seq<char>,
    rest: Seq<char>,
    res: Result<(PlayPlan, PlayBehaviours), PlayError>,
)
    requires
        planned(args, maybe_config, Some(home), res),
        home.len() > 0,
        below_home(home) is None,
        !starts_with_skippable(rest),
        !ends_with_skippable(rest),
    ensures
        match (args.input_kind, maybe_config) {
            (PlayInputKind::Cue(cue), Some(config)) => config.cues@.dom().contains(cue@)
                && config.cues@[cue@] == seq!['~', '/'] + rest ==> (match res {
                Ok((PlayPlan::Cue { path, .. }, _)) => path@ == join_spec(home, rest) && path@
                    != seq!['~', '/'] + rest,
                _ => false,
            }),
            (PlayInputKind::ExitCode(_), Some(config)) => match config.exit_codes {
                Some(sounds) => match sounds.success {
                    Some(p) => p@ == seq!['~', '/'] + rest ==> (match res {
                        Ok((PlayPlan::ExitCode { success: SoundPlan::File(path), .. }, _)) =>
                            path@ == join_spec(home, rest),
                        _ => false,
                    }),
                    None => true,
                },
                None => true,
            },
            _ => true,
        },
{
    law_home_relative_path(home, rest);
    let tilde = seq!['~', '/'] + rest;
    let j = join_spec(home, rest);
    if j == tilde {
        assert(j[0] == home[0]);
        assert(tilde[0] == '~');
        if home.len() >= 2 {
            assert(j[1] == home[1]);
            assert(tilde[1] == '/');
        }
    }
}

/// The sound files a plan needs, in the order they are to be read.
pub open spec fn files_needed(plan: PlayPlan) -> Seq<Seq<char>> {
    match plan {
        PlayPlan::ExitCode { success, error, .. } => (match success {
            SoundPlan::File(p) => seq![p@],
            SoundPlan::Builtin => Seq::empty(),
        }) + (match error {
            SoundPlan::File(p) => seq![p@],
            SoundPlan::Builtin => Seq::empty(),
        }),
        PlayPlan::Cue { path, .. } => seq![path@],
    }
}

/// The sound file that a planned sound gives once the files at and after `index`
/// of `reads` have been read.
pub open spec fn sound_file_of(plan: SoundPlan, reads: Seq<FileRead>, index: int) -> Option<
    SoundFile,
> {
    match plan {
        SoundPlan::Builtin => None,
        SoundPlan::File(p) => Some(SoundFile { path: p, read: reads[index] }),
    }
}

impl PlayPlan {
    /// The sound files this plan needs, in the order they are to be read.
    pub fn files_to_read(&self) -> (res: Vec<String>)
        ensures
            res@.map_values(|p: String| p@) == files_needed(*self),
    {
        let mut files: Vec<String> = Vec::new();
        match self {
            PlayPlan::ExitCode { success, error, .. } => {
                match success {
                    SoundPlan::File(p) => files.push(p.clone()),
                    SoundPlan::Builtin => {},
                }
                match error {
                    SoundPlan::File(p) => files.push(p.clone()),
                    SoundPlan::Builtin => {},
                }
            },
            PlayPlan::Cue { path, .. } => files.push(path.clone()),
        }
        assert(files@.map_values(|p: String| p@) =~= files_needed(*self));
        files
    }

    /// The data to play, given what reading the plan's sound files gave, in the
    /// order of [`PlayPlan::files_to_read`]. A cue whose file could not be read is
    /// an error; for an exit code, see [`PlayKind::exit_code`].
    pub fn into_play_data(self, reads: Vec<FileRead>) -> (res: Result<PlayData, PlayError>)
        requires
            reads.len() == files_needed(self).len(),
        ensures
            match self {
                PlayPlan::ExitCode { code, success, error } => {
                    let second = if success is File { 1int } else { 0int };
                    let s_file = sound_file_of(success, reads@, 0);
                    let e_file = sound_file_of(error, reads@, second);
                    match res {
                        Ok(data) => {
                            &&& !unreadable(s_file)
                            &&& !unreadable(e_file)
                            &&& data.kind matches PlayKind::ExitCode { code: c, success: s, error: e }
                            &&& c == code
                            &&& audio_from(s, s_file)
                            &&& audio_from(e, e_file)
                        },
                        Err(err) => if unreadable(s_file) {
                            reports_unreadable(err, true, s_file)
                        } else {
                            unreadable(e_file) && reports_unreadable(err, false, e_file)
                        },
                    }
                },
                PlayPlan::Cue { cue, path } => match (res, reads@[0]) {
                    (Ok(data), FileRead::Contents(contents)) => data.kind matches PlayKind::Cue(
                        bytes,
                    ) && bytes@ == contents@,
                    (Err(err), FileRead::Failed(c)) => err matches PlayError::CueSoundUnreadable {
                        cue: n,
                        path: p,
                        cause,
                    } && n@ == cue@ && p@ == path@ && cause@ == c@,
                    _ => false,
                },
            },
    {
        let mut reads = reads;
        match self {
            PlayPlan::ExitCode { code, success, error } => {
                let error_file = match error {
                    SoundPlan::File(p) => {
                        let r = reads.pop().unwrap();
                        Some(SoundFile { path: p, read: r })
                    },
                    SoundPlan::Builtin => None,
                };
                let success_file = match success {
                    SoundPlan::File(p) => {
                        let r = reads.pop().unwrap();
                        Some(SoundFile { path: p, read: r })
                    },
                    SoundPlan::Builtin => None,
                };
                match PlayKind::exit_code(code, success_file, error_file) {
                    Ok(kind) => Ok(PlayData { kind }),
                    Err(e) => Err(e),
                }
            },
            PlayPlan::Cue { cue, path } => {
                let r = reads.pop().unwrap();
                match r {
                    FileRead::Contents(bytes) => Ok(PlayData { kind: PlayKind::Cue(bytes) }),
                    FileRead::Failed(cause) => Err(PlayError::CueSoundUnreadable { cue, path, cause }),
                }
            },
        }
    }
}

} // verus!

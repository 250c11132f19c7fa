//! The commands' own decisions: which sound to play, and the sample config.
use vstd::prelude::*;

use crate::config::quoted;
use crate::play::{AudioSource, PlayData, PlayKind};

verus! {

/// A config showing every setting ting reads.
pub const SAMPLE_CONFIG: &'static str = "# sound files to play for exit codes; the built-in sound is played\n# for any that is left out\n[exit_codes]\nsuccess = \"~/ting/sounds/success.wav\"\nerror = \"~/ting/sounds/error.wav\"\n\n# sound files to play for named cues, as in `ting p build-success`\n[cues]\nbuild-success = \"~/ting/sounds/build-success.wav\"\nbuild-fail = \"~/ting/sounds/build-fail.wav\"\n";

/// The sample config.
pub fn get_sample_config() -> (res: &'static str)
    ensures
        res@ == SAMPLE_CONFIG@,
{
    SAMPLE_CONFIG
}

/// What `ting config sample` prints: where to put the config, then the sample.
pub fn sample_config_text(default_config_path: &str) -> (res: String)
    ensures
        res@ == "# place the following config in "@ + quoted(default_config_path@) + ":\n\n"@
            + SAMPLE_CONFIG@,
{
    let mut s = String::from_str("# place the following config in ");
    crate::config::append_quoted(&mut s, default_config_path);
    s.append(":\n\n");
    s.append(get_sample_config());
    proof {
        assert(s@ =~= "# place the following config in "@ + quoted(default_config_path@) + ":\n\n"@
            + SAMPLE_CONFIG@);
    }
    s
}

/// One of the sounds that ship with ting.
#[derive(PartialEq, Eq, Structural, Clone, Copy, Debug)]
pub enum BuiltinSound {
    Success,
    Error,
}

/// The sound to play.
#[derive(Debug)]
pub enum Sound {
    Builtin(BuiltinSound),
    Bytes(Vec<u8>),
}

/// The sound chosen for some play data, with the line that says which it is.
#[derive(Debug)]
pub struct SoundChoice {
    pub sound: Sound,
    pub note: String,
}

/// The sound a source gives for an outcome (success or error), and the note that
/// says so.
pub open spec fn chosen_from(
    choice: SoundChoice,
    source: AudioSource,
    builtin: BuiltinSound,
    outcome: Seq<char>,
) -> bool {
    match source {
        AudioSource::Builtin => choice.sound == Sound::Builtin(builtin) && choice.note@
            == "playing built-in "@ + outcome + " sound"@,
        AudioSource::External(bytes) => (choice.sound matches Sound::Bytes(b) && b@ == bytes@)
            && choice.note@ == "playing "@ + outcome + " sound from external source"@,
    }
}

fn builtin_note(outcome: &str) -> (res: String)
    ensures
        res@ == "playing built-in "@ + outcome@ + " sound"@,
{
    let mut s = String::from_str("playing built-in ");
    s.append(outcome);
    s.append(" sound");
    s
}

fn external_note(outcome: &str) -> (res: String)
    ensures
        res@ == "playing "@ + outcome@ + " sound from external source"@,
{
    let mut s = String::from_str("playing ");
    s.append(outcome);
    s.append(" sound from external source");
    s
}

/// The sound to play: for exit code 0 the success sound, for any other exit code
/// the error sound, and for a cue its sound file.
pub fn choose_sound(data: PlayData) -> (res: SoundChoice)
    ensures
        match data.kind {
            PlayKind::ExitCode { code, success, error } => if code == 0 {
                chosen_from(res, success, BuiltinSound::Success, "success"@)
            } else {
                chosen_from(res, error, BuiltinSound::Error, "error"@)
            },
            PlayKind::Cue(bytes) => (res.sound matches Sound::Bytes(b) && b@ == bytes@)
                && res.note@ == "playing cue sound from external source"@,
        },
{
    match data.kind {
        PlayKind::ExitCode { code, success, error } => if code == 0 {
            match success {
                AudioSource::Builtin => SoundChoice {
                    sound: Sound::Builtin(BuiltinSound::Success),
                    note: builtin_note("success"),
                },
                AudioSource::External(bytes) => SoundChoice {
                    sound: Sound::Bytes(bytes),
                    note: external_note("success"),
                },
            }
        } else {
            match error {
                AudioSource::Builtin => SoundChoice {
                    sound: Sound::Builtin(BuiltinSound::Error),
                    note: builtin_note("error"),
                },
                AudioSource::External(bytes) => SoundChoice {
                    sound: Sound::Bytes(bytes),
                    note: external_note("error"),
                },
            }
        },
        PlayKind::Cue(bytes) => SoundChoice {
            sound: Sound::Bytes(bytes),
            note: String::from_str("playing cue sound from external source"),
        },
    }
}

} // verus!

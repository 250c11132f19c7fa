//! The command line: ting's commands, and how `--debug` describes them.
use vstd::prelude::*;

verus! {

/// A parsed command line.
#[derive(Debug)]
pub struct Args {
    pub command: TingCommand,
    /// Output debug information without doing anything.
    pub debug: bool,
}

/// ting's commands.
#[derive(Debug)]
pub enum TingCommand {
    /// Play sound for an input.
    Play {
        /// Exit code (0, 1, etc.) or cue name (configured via ting's config).
        input: String,
        /// Path to the config file (overrides ting's default config path).
        config_path: Option<String>,
        /// Don't exit ting with the same code as the input.
        no_match_exit_code: bool,
    },
    /// Interact with ting's config.
    Config { config_command: ConfigCommand },
}

/// The config commands.
#[derive(Debug)]
pub enum ConfigCommand {
    /// Print sample config for ting.
    Sample,
    /// Validate ting's config file.
    Validate {
        /// Path to the config file (overrides ting's default config path).
        config_path: Option<String>,
    },
}

/// `true` or `false`.
pub open spec fn bool_text(b: bool) -> Seq<char> {
    if b {
        "true"@
    } else {
        "false"@
    }
}

/// A config path as shown, or `<NOT PROVIDED>`.
pub open spec fn path_text(p: Option<String>) -> Seq<char> {
    match p {
        Some(path) => path@,
        None => "<NOT PROVIDED>"@,
    }
}

impl Args {
    /// How `--debug` describes the command line.
    pub open spec fn describe_spec(&self) -> Seq<char> {
        match self.command {
            TingCommand::Play { input, config_path, no_match_exit_code } =>
                "\ncommand:                  play sound\nflags:\n  input:                  "@ + input@
                + "\n  config path:            "@ + path_text(config_path)
                + "\n  don't match exit code:  "@ + bool_text(no_match_exit_code) + "\n"@,
            TingCommand::Config { config_command } => match config_command {
                ConfigCommand::Sample => "\ncommand:              print sample config\n"@,
                ConfigCommand::Validate { config_path } =>
                    "\ncommand:              validate config\nflags:\n  config path:        "@
                    + path_text(config_path) + "\n"@,
            },
        }
    }

    /// How `--debug` describes the command line.
    pub fn describe(&self) -> (res: String)
        ensures
            res@ == self.describe_spec(),
    {
        match &self.command {
            TingCommand::Play { input, config_path, no_match_exit_code } => {
                let mut s = String::from_str(
                    "\ncommand:                  play sound\nflags:\n  input:                  ",
                );
                s.append(input.as_str());
                s.append("\n  config path:            ");
                append_path(&mut s, config_path);
                s.append("\n  don't match exit code:  ");
                append_bool(&mut s, *no_match_exit_code);
                s.append("\n");
                proof {
                    assert(s@ =~= self.describe_spec());
                }
                s
            },
            TingCommand::Config { config_command } => match config_command {
                ConfigCommand::Sample => String::from_str(
                    "\ncommand:              print sample config\n",
                ),
                ConfigCommand::Validate { config_path } => {
                    let mut s = String::from_str(
                        "\ncommand:              validate config\nflags:\n  config path:        ",
                    );
                    append_path(&mut s, config_path);
                    s.append("\n");
                    proof {
                        assert(s@ =~= self.describe_spec());
                    }
                    s
                },
            },
        }
    }
}

fn append_bool(s: &mut String, b: bool)
    ensures
        final(s)@ == old(s)@ + bool_text(b),
{
    if b {
        s.append("true");
    } else {
        s.append("false");
    }
}

fn append_path(s: &mut String, p: &Option<String>)
    ensures
        final(s)@ == old(s)@ + path_text(*p),
{
    match p {
        Some(path) => s.append(path.as_str()),
        None => s.append("<NOT PROVIDED>"),
    }
}

/// What `--debug` prints.
pub fn debug_info(args: &Args) -> (res: String)
    ensures
        res@ == "DEBUG INFO:\n"@ + args.describe_spec(),
{
    let mut s = String::from_str("DEBUG INFO:\n");
    let d = args.describe();
    s.append(d.as_str());
    s
}

} // verus!

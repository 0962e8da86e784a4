use vstd::prelude::*;
use vstd::string::StrSliceExecFns;

verus! {

/// Immutable settings of one run, resolved once at startup from an
/// environment snapshot and read-only to every component afterwards.
#[derive(Debug)]
pub struct Config {
    pub app_name: String,
    pub bundle_id: String,
    pub app_version: String,
    pub build_number: String,
    pub clean: bool,
    pub force_frontend: bool,
    pub force_backend: bool,
    pub force_swift: bool,
    pub skip_frontend: bool,
    pub skip_backend: bool,
    pub skip_swift: bool,
    pub dev_mode: bool,
    pub verbose: bool,
    pub dry_run: bool,
    pub codesign_identity: String,
}

/// The value of the first binding of `key` in the snapshot, if any.
pub open spec fn spec_env_lookup(env: Seq<(String, String)>, key: Seq<char>) -> Option<Seq<char>>
    decreases env.len(),
{
    if env.len() == 0 {
        None
    } else if env[0].0@ == key {
        Some(env[0].1@)
    } else {
        spec_env_lookup(env.drop_first(), key)
    }
}

/// A string setting: the bound value, or the default when unbound.
pub open spec fn spec_env_string(
    env: Seq<(String, String)>,
    key: Seq<char>,
    default: Seq<char>,
) -> Seq<char> {
    match spec_env_lookup(env, key) {
        Some(v) => v,
        None => default,
    }
}

/// ASCII case folding of one character.
pub open spec fn spec_ascii_lower_char(c: char) -> char {
    if 'A' <= c <= 'Z' {
        (((c as u8) + 32) as u8) as char
    } else {
        c
    }
}

/// ASCII case folding of a string.
pub open spec fn spec_ascii_lower(s: Seq<char>) -> Seq<char> {
    s.map_values(|c: char| spec_ascii_lower_char(c))
}

/// The strings read as true: "1", and "true" or "yes" in any ASCII case.
pub open spec fn spec_truthy(v: Seq<char>) -> bool {
    ||| v == "1"@
    ||| spec_ascii_lower(v) == spec_ascii_lower("true"@)
    ||| spec_ascii_lower(v) == spec_ascii_lower("yes"@)
}

/// A boolean setting: truthiness of the bound value, or the default when
/// unbound.
pub open spec fn spec_env_bool(env: Seq<(String, String)>, key: Seq<char>, default: bool) -> bool {
    match spec_env_lookup(env, key) {
        Some(v) => spec_truthy(v),
        None => default,
    }
}

/// True exactly when the two strings are equal after ASCII case folding;
/// characters outside 'A'..='Z' must match exactly.
#[verifier::loop_isolation(false)]
fn ascii_eq_ignore_case(a: &str, b: &str) -> (r: bool)
    ensures
        r == (spec_ascii_lower(a@) == spec_ascii_lower(b@)),
{
    let na = a.unicode_len();
    let nb = b.unicode_len();
    if na != nb {
        proof {
            assert(spec_ascii_lower(a@).len() != spec_ascii_lower(b@).len());
        }
        return false;
    }
    let mut i: usize = 0;
    while i < na
        invariant
            i <= na,
            na == a@.len(),
            na == b@.len(),
            forall|k: int| 0 <= k < i ==> spec_ascii_lower_char(#[trigger] a@[k])
                == spec_ascii_lower_char(b@[k]),
        decreases na - i,
    {
        let ca = a.get_char(i);
        let cb = b.get_char(i);
        let cau = ca as u32;
        let cbu = cb as u32;
        let fa: char = if 65 <= cau && cau <= 90 {
            ((cau + 32) as u8) as char
        } else {
            ca
        };
        let fb: char = if 65 <= cbu && cbu <= 90 {
            ((cbu + 32) as u8) as char
        } else {
            cb
        };
        proof {
            assert(fa == spec_ascii_lower_char(a@[i as int]));
            assert(fb == spec_ascii_lower_char(b@[i as int]));
        }
        if fa != fb {
            proof {
                assert(spec_ascii_lower(a@)[i as int] != spec_ascii_lower(b@)[i as int]);
            }
            return false;
        }
        i += 1;
    }
    proof {
        assert(spec_ascii_lower(a@) =~= spec_ascii_lower(b@));
    }
    true
}

/// Finds the first binding of `key` in the snapshot.
#[verifier::loop_isolation(false)]
fn env_lookup<'a>(env: &'a Vec<(String, String)>, key: &String) -> (r: Option<&'a String>)
    ensures
        match r {
            Some(v) => spec_env_lookup(env@, key@) == Some(v@),
            None => spec_env_lookup(env@, key@) is None,
        },
{
    let mut i: usize = 0;
    proof {
        assert(env@.skip(0) =~= env@);
    }
    while i < env.len()
        invariant
            i <= env.len(),
            spec_env_lookup(env@.skip(i as int), key@) == spec_env_lookup(env@, key@),
        decreases env.len() - i,
    {
        if env[i].0 == *key {
            proof {
                assert(env@.skip(i as int)[0] == env@[i as int]);
            }
            return Some(&env[i].1);
        }
        proof {
            assert(env@.skip(i as int)[0] == env@[i as int]);
            assert(env@.skip(i as int).drop_first() =~= env@.skip(i + 1));
        }
        i += 1;
    }
    proof {
        assert(env@.skip(i as int).len() == 0);
    }
    None
}

/// The string setting under `key`, or `default` when the snapshot does not
/// bind it.
pub fn env_string(env: &Vec<(String, String)>, key: &String, default: &str) -> (r: String)
    ensures
        r@ == spec_env_string(env@, key@, default@),
{
    match env_lookup(env, key) {
        Some(v) => v.clone(),
        None => default.to_owned(),
    }
}

/// The boolean setting under `key`: set values "1", "true" and "yes" (the
/// words in any ASCII case) read as true, every other value as false, and an
/// unbound key as `default`.
pub fn env_bool(env: &Vec<(String, String)>, key: &String, default: bool) -> (r: bool)
    ensures
        r == spec_env_bool(env@, key@, default),
{
    match env_lookup(env, key) {
        None => default,
        Some(v) => {
            let one = String::from_str("1");
            if *v == one {
                return true;
            }
            if ascii_eq_ignore_case(v.as_str(), "true") {
                return true;
            }
            if ascii_eq_ignore_case(v.as_str(), "yes") {
                return true;
            }
            false
        },
    }
}

impl Config {
    /// Builds the run's configuration from a snapshot of the named
    /// environment variables, applying the documented defaults to every
    /// unbound one.
    pub fn from_env(env: &Vec<(String, String)>) -> (cfg: Config)
        ensures
            cfg.app_name@ == spec_env_string(env@, "APP_NAME"@, "Budget"@),
            cfg.bundle_id@ == spec_env_string(env@, "BUNDLE_ID"@, "com.budget.app"@),
            cfg.app_version@ == spec_env_string(env@, "APP_VERSION"@, "0.1.0"@),
            cfg.build_number@ == spec_env_string(env@, "BUILD_NUMBER"@, "1"@),
            cfg.clean == spec_env_bool(env@, "CLEAN"@, false),
            cfg.force_frontend == spec_env_bool(env@, "FORCE_FRONTEND"@, false),
            cfg.force_backend == spec_env_bool(env@, "FORCE_BACKEND"@, false),
            cfg.force_swift == spec_env_bool(env@, "FORCE_SWIFT"@, false),
            cfg.skip_frontend == spec_env_bool(env@, "SKIP_FRONTEND"@, false),
            cfg.skip_backend == spec_env_bool(env@, "SKIP_BACKEND"@, false),
            cfg.skip_swift == spec_env_bool(env@, "SKIP_SWIFT"@, false),
            cfg.dev_mode == spec_env_bool(env@, "DEV_MODE"@, false),
            cfg.verbose == spec_env_bool(env@, "VERBOSE"@, false),
            cfg.dry_run == spec_env_bool(env@, "DRY_RUN"@, false),
            cfg.codesign_identity@ == spec_env_string(env@, "CODESIGN_IDENTITY"@, ""@),
    {
        Config {
            app_name: env_string(env, &String::from_str("APP_NAME"), "Budget"),
            bundle_id: env_string(env, &String::from_str("BUNDLE_ID"), "com.budget.app"),
            app_version: env_string(env, &String::from_str("APP_VERSION"), "0.1.0"),
            build_number: env_string(env, &String::from_str("BUILD_NUMBER"), "1"),
            clean: env_bool(env, &String::from_str("CLEAN"), false),
            force_frontend: env_bool(env, &String::from_str("FORCE_FRONTEND"), false),
            force_backend: env_bool(env, &String::from_str("FORCE_BACKEND"), false),
            force_swift: env_bool(env, &String::from_str("FORCE_SWIFT"), false),
            skip_frontend: env_bool(env, &String::from_str("SKIP_FRONTEND"), false),
            skip_backend: env_bool(env, &String::from_str("SKIP_BACKEND"), false),
            skip_swift: env_bool(env, &String::from_str("SKIP_SWIFT"), false),
            dev_mode: env_bool(env, &String::from_str("DEV_MODE"), false),
            verbose: env_bool(env, &String::from_str("VERBOSE"), false),
            dry_run: env_bool(env, &String::from_str("DRY_RUN"), false),
            codesign_identity: env_string(env, &String::from_str("CODESIGN_IDENTITY"), ""),
        }
    }

    /// Development mode narrows the run to fast frontend-only updates: the
    /// backend and wrapper stages are skipped and signing is disabled. A run
    /// without development mode is left untouched.
    pub fn apply_dev_mode(&mut self)
        ensures
            final(self).dev_mode == old(self).dev_mode,
            old(self).dev_mode ==> {
                &&& final(self).skip_backend
                &&& final(self).skip_swift
                &&& final(self).codesign_identity@ == Seq::<char>::empty()
            },
            !old(self).dev_mode ==> *final(self) == *old(self),
            final(self).app_name == old(self).app_name,
            final(self).bundle_id == old(self).bundle_id,
            final(self).app_version == old(self).app_version,
            final(self).build_number == old(self).build_number,
            final(self).clean == old(self).clean,
            final(self).force_frontend == old(self).force_frontend,
            final(self).force_backend == old(self).force_backend,
            final(self).force_swift == old(self).force_swift,
            final(self).skip_frontend == old(self).skip_frontend,
            final(self).verbose == old(self).verbose,
            final(self).dry_run == old(self).dry_run,
            old(self).dev_mode ==> final(self).skip_backend && final(self).skip_swift,
    {
        if self.dev_mode {
            self.skip_backend = true;
            self.skip_swift = true;
            self.codesign_identity = String::new();
        }
    }
}

/// What the invocation asks for.
#[derive(Debug)]
pub enum CliCommand {
    /// Run the build pipeline.
    Build,
    /// Only flatten a PNG's alpha channel: input path, then output path.
    FlattenIcon { input: String, output: String },
    /// Print usage and exit.
    Help,
}

/// The parsed command line.
#[derive(Debug)]
pub struct Cli {
    pub root_override: Option<String>,
    pub command: CliCommand,
}

/// The ways a command line can be rejected.
#[derive(PartialEq, Eq, Structural, Debug)]
pub enum CliError {
    /// The flatten subcommand needs exactly an input and an output path.
    FlattenIconUsage,
    /// A root flag stood last, with no value after it.
    RootNeedsValue,
}

/// Scanning the flags from position `i` with `acc` the root override seen so
/// far: a later root flag wins, a trailing one is an error, anything else is
/// ignored.
pub open spec fn spec_scan_root(args: Seq<String>, i: int, acc: Option<String>) -> Result<
    Option<String>,
    CliError,
>
    decreases args.len() - i,
{
    if i < 0 || i >= args.len() {
        Ok(acc)
    } else if args[i]@ == "--root"@ {
        if i + 1 < args.len() {
            spec_scan_root(args, i + 2, Some(args[i + 1]))
        } else {
            Err(CliError::RootNeedsValue)
        }
    } else {
        spec_scan_root(args, i + 1, acc)
    }
}

/// Is some argument a help flag?
pub open spec fn spec_wants_help(args: Seq<String>) -> bool {
    exists|i: int| 0 <= i < args.len() && (#[trigger] args[i]@ == "--help"@ || args[i]@ == "-h"@)
}

/// What parsing the argument list yields: help when any help flag occurs;
/// otherwise the flatten subcommand when it stands first, demanding exactly
/// its two paths; otherwise a build, with the last root override kept.
pub open spec fn spec_parse_cli(args: Seq<String>) -> Result<Cli, CliError> {
    if spec_wants_help(args) {
        Ok(Cli { root_override: None, command: CliCommand::Help })
    } else if args.len() > 0 && args[0]@ == "flatten-icon"@ {
        if args.len() == 3 {
            Ok(
                Cli {
                    root_override: None,
                    command: CliCommand::FlattenIcon { input: args[1], output: args[2] },
                },
            )
        } else {
            Err(CliError::FlattenIconUsage)
        }
    } else {
        match spec_scan_root(args, 0, None) {
            Ok(root) => Ok(Cli { root_override: root, command: CliCommand::Build }),
            Err(e) => Err(e),
        }
    }
}

impl Cli {
    /// Parses the program's arguments (without the program name).
    #[verifier::loop_isolation(false)]
    pub fn parse(args: &Vec<String>) -> (r: Result<Cli, CliError>)
        ensures
            match r {
                Ok(cli) => {
                    &&& spec_parse_cli(args@) matches Ok(c)
                    &&& c.root_override == cli.root_override
                    &&& c.command == cli.command
                },
                Err(e) => spec_parse_cli(args@) == Err::<Cli, CliError>(e),
            },
    {
        let help_long = String::from_str("--help");
        let help_short = String::from_str("-h");
        let mut i: usize = 0;
        while i < args.len()
            invariant
                i <= args.len(),
                help_long@ == "--help"@,
                help_short@ == "-h"@,
                forall|k: int| 0 <= k < i ==> !(#[trigger] args@[k]@ == "--help"@ || args@[k]@
                    == "-h"@),
            decreases args.len() - i,
        {
            if args[i] == help_long || args[i] == help_short {
                return Ok(Cli { root_override: None, command: CliCommand::Help });
            }
            i += 1;
        }
        proof {
            if spec_wants_help(args@) {
                let k = choose|k: int|
                    0 <= k < args@.len() && (#[trigger] args@[k]@ == "--help"@ || args@[k]@
                        == "-h"@);
            }
        }
        let flatten = String::from_str("flatten-icon");
        if args.len() > 0 && args[0] == flatten {
            if args.len() != 3 {
                return Err(CliError::FlattenIconUsage);
            }
            return Ok(
                Cli {
                    root_override: None,
                    command: CliCommand::FlattenIcon {
                        input: args[1].clone(),
                        output: args[2].clone(),
                    },
                },
            );
        }
        let root_flag = String::from_str("--root");
        let mut root: Option<String> = None;
        let mut j: usize = 0;
        while j < args.len()
            invariant
                root_flag@ == "--root"@,
                spec_scan_root(args@, j as int, root) == spec_scan_root(args@, 0, None),
            decreases args.len() - j,
        {
            if args[j] == root_flag {
                if j + 1 < args.len() {
                    root = Some(args[j + 1].clone());
                    j += 2;
                } else {
                    return Err(CliError::RootNeedsValue);
                }
            } else {
                j += 1;
            }
        }
        Ok(Cli { root_override: root, command: CliCommand::Build })
    }
}


/// The colors the tool logs in.
#[derive(PartialEq, Eq, Structural, Clone, Copy, Debug)]
pub enum AnsiColor {
    Red,
    Green,
    Yellow,
    Blue,
}

/// Terminal color support, decided once from whether standard output is a
/// terminal and consulted for every escape code.
pub struct Ansi {
    pub enabled: bool,
}

impl Ansi {
    /// Color codes are emitted exactly when enabled.
    pub fn new(enabled: bool) -> (r: Ansi)
        ensures
            r.enabled == enabled,
    {
        Ansi { enabled }
    }

    /// The escape code that starts the given color, or nothing when
    /// colors are off.
    pub fn code(&self, color: AnsiColor) -> (r: &'static str)
        ensures
            !self.enabled ==> r@ == ""@,
            self.enabled && color == AnsiColor::Red ==> r@ == "\x1b[0;31m"@,
            self.enabled && color == AnsiColor::Green ==> r@ == "\x1b[0;32m"@,
            self.enabled && color == AnsiColor::Yellow ==> r@ == "\x1b[1;33m"@,
            self.enabled && color == AnsiColor::Blue ==> r@ == "\x1b[0;34m"@,
    {
        if !self.enabled {
            return "";
        }
        match color {
            AnsiColor::Red => "\x1b[0;31m",
            AnsiColor::Green => "\x1b[0;32m",
            AnsiColor::Yellow => "\x1b[1;33m",
            AnsiColor::Blue => "\x1b[0;34m",
        }
    }

    /// The escape code that starts bold text, or nothing when colors are
    /// off.
    pub fn bold(&self) -> (r: &'static str)
        ensures
            self.enabled ==> r@ == "\x1b[1m"@,
            !self.enabled ==> r@ == ""@,
    {
        if self.enabled {
            "\x1b[1m"
        } else {
            ""
        }
    }

    /// The escape code that resets all styling, or nothing when colors
    /// are off.
    pub fn reset(&self) -> (r: &'static str)
        ensures
            self.enabled ==> r@ == "\x1b[0m"@,
            !self.enabled ==> r@ == ""@,
    {
        if self.enabled {
            "\x1b[0m"
        } else {
            ""
        }
    }
}

} // verus!

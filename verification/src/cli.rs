//! The command-line surface: a URI positional to request an open, and a
//! `daemon` subcommand whose flags drive the administrative RPC calls from
//! a one-shot client process — plus the startup role decision derived from
//! the parsed command line.
//!
//! `args` is the full argument list including the program name at position
//! zero. Numbers are plain decimal digits.

use vstd::prelude::*;
use crate::strutil::str_eq;

verus! {

/// The parsed command line.
#[derive(Debug, PartialEq)]
pub struct Cli {
    pub command: Option<Commands>,
    /// URI to open.
    pub uri: Option<String>,
}

/// The subcommands.
#[derive(Debug, PartialEq)]
pub enum Commands {
    Daemon {
        /// Set the default application index on fallback.
        set_default: Option<u64>,
        /// Unset the default application on fallback; the UI opens instead.
        unset_default: bool,
        /// Print status of the daemon.
        status: bool,
        /// Kill the daemon.
        kill: bool,
        /// Set the next default application index: from none the first
        /// application becomes the default; from the last, none does.
        set_default_next: bool,
        /// Waybar helper: status in the form the bar consumes.
        waybar: bool,
    },
}

/// A command line the grammar rejects.
#[derive(Debug, PartialEq)]
pub enum CliError {
    /// A second positional argument after the URI.
    UnexpectedArgument(String),
    /// A token that is no known flag of the `daemon` subcommand.
    UnknownArgument(String),
    /// A flag that takes a value stood last on the line.
    MissingValue(String),
    /// The value of a numeric flag is no decimal number in range.
    InvalidNumber(String),
}

/// `c` is a decimal digit.
pub open spec fn is_decimal_digit(c: char) -> bool {
    '0' as u32 <= c as u32 && c as u32 <= '9' as u32
}

/// Every character of `s` is a decimal digit.
pub open spec fn all_digits(s: Seq<char>) -> bool {
    forall|i: int| 0 <= i < s.len() ==> is_decimal_digit(#[trigger] s[i])
}

/// The number the digit string `s` denotes, most significant digit first.
pub open spec fn digits_value(s: Seq<char>) -> int
    decreases s.len(),
{
    if s.len() == 0 {
        0
    } else {
        digits_value(s.drop_last()) * 10 + (s.last() as u32 - '0' as u32)
    }
}

/// What a decimal `u64` argument parses to: the denoted number, for a
/// nonempty all-digit string whose value fits; nothing otherwise.
pub open spec fn parse_u64_spec(s: Seq<char>) -> Option<u64> {
    if s.len() > 0 && all_digits(s) && digits_value(s) <= u64::MAX {
        Some(digits_value(s) as u64)
    } else {
        None
    }
}

proof fn lemma_digits_value_nonneg(s: Seq<char>)
    requires
        all_digits(s),
    ensures
        digits_value(s) >= 0,
    decreases s.len(),
{
    if s.len() > 0 {
        assert(all_digits(s.drop_last())) by {
            assert(forall|i: int|
                0 <= i < s.len() - 1 ==> #[trigger] s.drop_last()[i] == s[i]);
        }
        lemma_digits_value_nonneg(s.drop_last());
        assert(is_decimal_digit(s.last()));
    }
}

proof fn lemma_digits_value_monotonic(s: Seq<char>, i: int)
    requires
        0 <= i <= s.len(),
        all_digits(s),
    ensures
        digits_value(s.take(i)) <= digits_value(s),
    decreases s.len() - i,
{
    if i < s.len() {
        assert(s.take(i + 1).drop_last() =~= s.take(i));
        assert(s.take(i + 1).last() == s[i]);
        assert(all_digits(s.take(i))) by {
            assert(forall|j: int| 0 <= j < i ==> #[trigger] s.take(i)[j] == s[j]);
        }
        lemma_digits_value_nonneg(s.take(i));
        assert(is_decimal_digit(s[i]));
        assert(digits_value(s.take(i + 1)) >= digits_value(s.take(i)));
        lemma_digits_value_monotonic(s, i + 1);
        assert(s.take(s.len() as int) =~= s);
    } else {
        assert(s.take(i) =~= s);
    }
}

/// Parses a nonempty string of decimal digits into a `u64`; anything else,
/// and any value over `u64::MAX`, is rejected.
pub fn parse_u64(s: &String) -> (r: Option<u64>)
    ensures
        r == parse_u64_spec(s@),
{
    let len = s.as_str().unicode_len();
    if len == 0 {
        return None;
    }
    let mut value: u64 = 0;
    for i in 0..len
        invariant
            len == s@.len(),
            all_digits(s@.take(i as int)),
            value == digits_value(s@.take(i as int)),
    {
        let c = s.as_str().get_char(i);
        let code = c as u32;
        if code < '0' as u32 || code > '9' as u32 {
            assert(!is_decimal_digit(s@[i as int]));
            return None;
        }
        let d = code - '0' as u32;
        proof {
            assert(s@.take(i + 1).drop_last() =~= s@.take(i as int));
            assert(s@.take(i + 1).last() == s@[i as int]);
            assert(all_digits(s@.take(i + 1))) by {
                assert(forall|j: int|
                    0 <= j < i ==> #[trigger] s@.take(i + 1)[j] == s@.take(i as int)[j]);
            }
        }
        let extended = match value.checked_mul(10) {
            Some(v10) => v10.checked_add(d as u64),
            None => None,
        };
        match extended {
            Some(v) => {
                value = v;
            },
            None => {
                assert(digits_value(s@.take(i + 1)) > u64::MAX);
                proof {
                    if all_digits(s@) {
                        lemma_digits_value_monotonic(s@, i + 1);
                    }
                }
                return None;
            },
        }
    }
    proof {
        assert(s@.take(len as int) =~= s@);
    }
    Some(value)
}

/// The `daemon` subcommand's flags parsed from position `i` on, as the
/// tuple `(set_default, unset_default, status, kill, set_default_next,
/// waybar)`. For a repeated value flag the first occurrence counts; every
/// token must be a known flag or the value of one.
pub open spec fn daemon_flags_of(args: Seq<String>, i: int) -> Result<
    (Option<u64>, bool, bool, bool, bool, bool),
    CliError,
>
    decreases args.len() - i,
{
    if i >= args.len() {
        Ok((None, false, false, false, false, false))
    } else if args[i]@ == "--set-default"@ {
        if i + 1 >= args.len() {
            Err(CliError::MissingValue(args[i]))
        } else {
            match parse_u64_spec(args[i + 1]@) {
                Some(n) => match daemon_flags_of(args, i + 2) {
                    Ok(rest) => Ok((Some(n), rest.1, rest.2, rest.3, rest.4, rest.5)),
                    Err(e) => Err(e),
                },
                None => Err(CliError::InvalidNumber(args[i + 1])),
            }
        }
    } else if args[i]@ == "--unset-default"@ {
        match daemon_flags_of(args, i + 1) {
            Ok(rest) => Ok((rest.0, true, rest.2, rest.3, rest.4, rest.5)),
            Err(e) => Err(e),
        }
    } else if args[i]@ == "--status"@ {
        match daemon_flags_of(args, i + 1) {
            Ok(rest) => Ok((rest.0, rest.1, true, rest.3, rest.4, rest.5)),
            Err(e) => Err(e),
        }
    } else if args[i]@ == "--kill"@ {
        match daemon_flags_of(args, i + 1) {
            Ok(rest) => Ok((rest.0, rest.1, rest.2, true, rest.4, rest.5)),
            Err(e) => Err(e),
        }
    } else if args[i]@ == "--set-default-next"@ {
        match daemon_flags_of(args, i + 1) {
            Ok(rest) => Ok((rest.0, rest.1, rest.2, rest.3, true, rest.5)),
            Err(e) => Err(e),
        }
    } else if args[i]@ == "--waybar"@ {
        match daemon_flags_of(args, i + 1) {
            Ok(rest) => Ok((rest.0, rest.1, rest.2, rest.3, rest.4, true)),
            Err(e) => Err(e),
        }
    } else {
        Err(CliError::UnknownArgument(args[i]))
    }
}

fn parse_daemon_flags(args: &Vec<String>, i: usize) -> (r: Result<
    (Option<u64>, bool, bool, bool, bool, bool),
    CliError,
>)
    ensures
        r == daemon_flags_of(args@, i as int),
    decreases args@.len() - i,
{
    if i >= args.len() {
        return Ok((None, false, false, false, false, false));
    }
    let tok = &args[i];
    if str_eq(tok.as_str(), "--set-default") {
        if i + 1 >= args.len() {
            return Err(CliError::MissingValue(tok.clone()));
        }
        match parse_u64(&args[i + 1]) {
            Some(n) => match parse_daemon_flags(args, i + 2) {
                Ok(rest) => Ok((Some(n), rest.1, rest.2, rest.3, rest.4, rest.5)),
                Err(e) => Err(e),
            },
            None => Err(CliError::InvalidNumber(args[i + 1].clone())),
        }
    } else if str_eq(tok.as_str(), "--unset-default") {
        match parse_daemon_flags(args, i + 1) {
            Ok(rest) => Ok((rest.0, true, rest.2, rest.3, rest.4, rest.5)),
            Err(e) => Err(e),
        }
    } else if str_eq(tok.as_str(), "--status") {
        match parse_daemon_flags(args, i + 1) {
            Ok(rest) => Ok((rest.0, rest.1, true, rest.3, rest.4, rest.5)),
            Err(e) => Err(e),
        }
    } else if str_eq(tok.as_str(), "--kill") {
        match parse_daemon_flags(args, i + 1) {
            Ok(rest) => Ok((rest.0, rest.1, rest.2, true, rest.4, rest.5)),
            Err(e) => Err(e),
        }
    } else if str_eq(tok.as_str(), "--set-default-next") {
        match parse_daemon_flags(args, i + 1) {
            Ok(rest) => Ok((rest.0, rest.1, rest.2, rest.3, true, rest.5)),
            Err(e) => Err(e),
        }
    } else if str_eq(tok.as_str(), "--waybar") {
        match parse_daemon_flags(args, i + 1) {
            Ok(rest) => Ok((rest.0, rest.1, rest.2, rest.3, rest.4, true)),
            Err(e) => Err(e),
        }
    } else {
        Err(CliError::UnknownArgument(tok.clone()))
    }
}

/// Parses a full argument list (program name first): no argument is an
/// empty request; a single non-`daemon` argument is the URI to open; the
/// `daemon` subcommand takes its flags; anything else is rejected.
pub fn parse(args: &Vec<String>) -> (r: Result<Cli, CliError>)
    ensures
        args@.len() <= 1 ==> r == Ok::<Cli, CliError>(Cli { command: None, uri: None }),
        args@.len() == 2 && args@[1]@ != "daemon"@ ==> r == Ok::<Cli, CliError>(
            Cli { command: None, uri: Some(args@[1]) },
        ),
        args@.len() > 2 && args@[1]@ != "daemon"@ ==> r == Err::<Cli, CliError>(
            CliError::UnexpectedArgument(args@[2]),
        ),
        args@.len() >= 2 && args@[1]@ == "daemon"@ ==> r == (match daemon_flags_of(args@, 2) {
            Ok(f) => Ok(
                Cli {
                    command: Some(
                        Commands::Daemon {
                            set_default: f.0,
                            unset_default: f.1,
                            status: f.2,
                            kill: f.3,
                            set_default_next: f.4,
                            waybar: f.5,
                        },
                    ),
                    uri: None,
                },
            ),
            Err(e) => Err(e),
        }),
{
    if args.len() <= 1 {
        return Ok(Cli { command: None, uri: None });
    }
    if !str_eq(args[1].as_str(), "daemon") {
        if args.len() == 2 {
            Ok(Cli { command: None, uri: Some(args[1].clone()) })
        } else {
            Err(CliError::UnexpectedArgument(args[2].clone()))
        }
    } else {
        match parse_daemon_flags(args, 2) {
            Ok(f) => Ok(
                Cli {
                    command: Some(
                        Commands::Daemon {
                            set_default: f.0,
                            unset_default: f.1,
                            status: f.2,
                            kill: f.3,
                            set_default_next: f.4,
                            waybar: f.5,
                        },
                    ),
                    uri: None,
                },
            ),
            Err(e) => Err(e),
        }
    }
}

/// What the process does after parsing its command line.
#[derive(Debug, PartialEq)]
pub enum StartupPlan {
    /// Become the daemon: own the RPC endpoint and the workers.
    RunDaemon,
    /// Drive a `Status` call against the running daemon.
    AdminStatus,
    /// Drive a `Kill` call against the running daemon.
    AdminKill,
    /// Drive a `SetDefault` call with the given index.
    AdminSetDefault(u64),
    /// Drive a `SetDefault` call that clears the default.
    AdminUnsetDefault,
    /// Drive a `SetDefaultNext` call.
    AdminSetDefaultNext,
    /// Resolve one URI (trying a running daemon first, standalone on any
    /// connection failure); without a URI the picker runs for nothing.
    OpenUri(Option<String>),
}

/// The startup role decision, resolved once, early: a bare `daemon`
/// subcommand makes this process the daemon; any administrative flag makes
/// it a one-shot client (status before kill before set-default before
/// unset-default before set-default-next; the waybar helper reads status);
/// without a subcommand the process resolves its URI argument.
pub fn startup_plan(cli: &Cli) -> (r: StartupPlan)
    ensures
        match cli.command {
            None => r == StartupPlan::OpenUri(cli.uri),
            Some(
                Commands::Daemon {
                    set_default,
                    unset_default,
                    status,
                    kill,
                    set_default_next,
                    waybar,
                },
            ) => {
                if status {
                    r == StartupPlan::AdminStatus
                } else if kill {
                    r == StartupPlan::AdminKill
                } else if set_default is Some {
                    r == StartupPlan::AdminSetDefault(set_default->Some_0)
                } else if unset_default {
                    r == StartupPlan::AdminUnsetDefault
                } else if set_default_next {
                    r == StartupPlan::AdminSetDefaultNext
                } else if waybar {
                    r == StartupPlan::AdminStatus
                } else {
                    r == StartupPlan::RunDaemon
                }
            },
        },
{
    match &cli.command {
        None => {
            let uri = match &cli.uri {
                Some(u) => Some(u.clone()),
                None => None,
            };
            StartupPlan::OpenUri(uri)
        },
        Some(
            Commands::Daemon { set_default, unset_default, status, kill, set_default_next, waybar },
        ) => {
            if *status {
                StartupPlan::AdminStatus
            } else if *kill {
                StartupPlan::AdminKill
            } else if let Some(n) = set_default {
                StartupPlan::AdminSetDefault(*n)
            } else if *unset_default {
                StartupPlan::AdminUnsetDefault
            } else if *set_default_next {
                StartupPlan::AdminSetDefaultNext
            } else if *waybar {
                StartupPlan::AdminStatus
            } else {
                StartupPlan::RunDaemon
            }
        },
    }
}

} // verus!

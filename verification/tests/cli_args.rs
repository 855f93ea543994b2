//! The command-line grammar, the decimal number parser, and the startup
//! role decision.

use choosme::cli::parse;
use choosme::cli::parse_u64;
use choosme::cli::startup_plan;
use choosme::cli::Cli;
use choosme::cli::CliError;
use choosme::cli::Commands;
use choosme::cli::StartupPlan;

fn args_of(words: &[&str]) -> Vec<String> {
    words.iter().map(|w| w.to_string()).collect()
}

fn daemon_flags(cli: &Cli) -> (Option<u64>, bool, bool, bool, bool, bool) {
    match cli.command {
        Some(Commands::Daemon {
            set_default,
            unset_default,
            status,
            kill,
            set_default_next,
            waybar,
        }) => (set_default, unset_default, status, kill, set_default_next, waybar),
        None => panic!("expected the daemon subcommand"),
    }
}

#[test]
fn no_arguments_is_an_empty_request() {
    let cli = parse(&args_of(&["choosme"])).unwrap();
    assert!(cli.command.is_none());
    assert!(cli.uri.is_none());
}

#[test]
fn one_positional_is_the_uri() {
    let cli = parse(&args_of(&["choosme", "http://example.com"])).unwrap();
    assert!(cli.command.is_none());
    assert_eq!(cli.uri.as_deref(), Some("http://example.com"));
}

#[test]
fn a_second_positional_is_rejected() {
    let err = parse(&args_of(&["choosme", "http://a", "http://b"])).unwrap_err();
    assert_eq!(err, CliError::UnexpectedArgument("http://b".to_string()));
}

#[test]
fn bare_daemon_subcommand_has_no_flags_set() {
    let cli = parse(&args_of(&["choosme", "daemon"])).unwrap();
    assert!(cli.uri.is_none());
    assert_eq!(daemon_flags(&cli), (None, false, false, false, false, false));
}

#[test]
fn each_daemon_flag_is_recognized() {
    let cli = parse(&args_of(&["choosme", "daemon", "--status"])).unwrap();
    assert_eq!(daemon_flags(&cli).2, true);
    let cli = parse(&args_of(&["choosme", "daemon", "--kill"])).unwrap();
    assert_eq!(daemon_flags(&cli).3, true);
    let cli = parse(&args_of(&["choosme", "daemon", "--unset-default"])).unwrap();
    assert_eq!(daemon_flags(&cli).1, true);
    let cli = parse(&args_of(&["choosme", "daemon", "--set-default-next"])).unwrap();
    assert_eq!(daemon_flags(&cli).4, true);
    let cli = parse(&args_of(&["choosme", "daemon", "--waybar"])).unwrap();
    assert_eq!(daemon_flags(&cli).5, true);
}

#[test]
fn set_default_takes_a_number() {
    let cli = parse(&args_of(&["choosme", "daemon", "--set-default", "3"])).unwrap();
    assert_eq!(daemon_flags(&cli).0, Some(3));
}

#[test]
fn daemon_flags_combine() {
    let cli = parse(&args_of(&[
        "choosme",
        "daemon",
        "--set-default",
        "2",
        "--status",
    ]))
    .unwrap();
    let flags = daemon_flags(&cli);
    assert_eq!(flags.0, Some(2));
    assert!(flags.2);
}

#[test]
fn set_default_without_a_value_is_rejected() {
    let err = parse(&args_of(&["choosme", "daemon", "--set-default"])).unwrap_err();
    assert_eq!(err, CliError::MissingValue("--set-default".to_string()));
}

#[test]
fn set_default_with_a_non_number_is_rejected() {
    let err = parse(&args_of(&["choosme", "daemon", "--set-default", "abc"])).unwrap_err();
    assert_eq!(err, CliError::InvalidNumber("abc".to_string()));
}

#[test]
fn unknown_daemon_flag_is_rejected() {
    let err = parse(&args_of(&["choosme", "daemon", "--frobnicate"])).unwrap_err();
    assert_eq!(err, CliError::UnknownArgument("--frobnicate".to_string()));
}

#[test]
fn parse_u64_exact_values() {
    assert_eq!(parse_u64(&"0".to_string()), Some(0));
    assert_eq!(parse_u64(&"42".to_string()), Some(42));
    assert_eq!(parse_u64(&"007".to_string()), Some(7));
    assert_eq!(
        parse_u64(&"18446744073709551615".to_string()),
        Some(u64::MAX)
    );
}

#[test]
fn parse_u64_rejects_non_digits_and_overflow() {
    assert_eq!(parse_u64(&String::new()), None);
    assert_eq!(parse_u64(&"+1".to_string()), None);
    assert_eq!(parse_u64(&"-1".to_string()), None);
    assert_eq!(parse_u64(&"1x".to_string()), None);
    assert_eq!(parse_u64(&"18446744073709551616".to_string()), None);
    assert_eq!(parse_u64(&"99999999999999999999999".to_string()), None);
}

#[test]
fn startup_plan_without_a_subcommand_opens_the_uri() {
    let cli = parse(&args_of(&["choosme", "http://x"])).unwrap();
    assert_eq!(
        startup_plan(&cli),
        StartupPlan::OpenUri(Some("http://x".to_string()))
    );
    let cli = parse(&args_of(&["choosme"])).unwrap();
    assert_eq!(startup_plan(&cli), StartupPlan::OpenUri(None));
}

#[test]
fn startup_plan_bare_daemon_runs_the_daemon() {
    let cli = parse(&args_of(&["choosme", "daemon"])).unwrap();
    assert_eq!(startup_plan(&cli), StartupPlan::RunDaemon);
}

#[test]
fn startup_plan_admin_flags_make_a_client() {
    let cli = parse(&args_of(&["choosme", "daemon", "--status"])).unwrap();
    assert_eq!(startup_plan(&cli), StartupPlan::AdminStatus);
    let cli = parse(&args_of(&["choosme", "daemon", "--kill"])).unwrap();
    assert_eq!(startup_plan(&cli), StartupPlan::AdminKill);
    let cli = parse(&args_of(&["choosme", "daemon", "--set-default", "1"])).unwrap();
    assert_eq!(startup_plan(&cli), StartupPlan::AdminSetDefault(1));
    let cli = parse(&args_of(&["choosme", "daemon", "--unset-default"])).unwrap();
    assert_eq!(startup_plan(&cli), StartupPlan::AdminUnsetDefault);
    let cli = parse(&args_of(&["choosme", "daemon", "--set-default-next"])).unwrap();
    assert_eq!(startup_plan(&cli), StartupPlan::AdminSetDefaultNext);
    let cli = parse(&args_of(&["choosme", "daemon", "--waybar"])).unwrap();
    assert_eq!(startup_plan(&cli), StartupPlan::AdminStatus);
}

#[test]
fn startup_plan_status_takes_precedence() {
    let cli = parse(&args_of(&["choosme", "daemon", "--status", "--kill"])).unwrap();
    assert_eq!(startup_plan(&cli), StartupPlan::AdminStatus);
}

//! The launch worker's decisions and its strictly sequential processing,
//! and the resolution of rules to launchable applications.

use choosme::config::Config;
use choosme::config::DesktopFileConfig;
use choosme::desktop_files::expand_home;
use choosme::desktop_files::find_resolved;
use choosme::desktop_files::first_value_of;
use choosme::desktop_files::process_commands;
use choosme::desktop_files::resolve_desktop_files;
use choosme::desktop_files::worker_step;
use choosme::desktop_files::DesktopFileOpenerCommand;
use choosme::desktop_files::OpenParams;
use choosme::desktop_files::RegistryEntry;
use choosme::desktop_files::ResolvedApplication;
use choosme::desktop_files::WorkerStep;

fn app(id: &str, name: &str) -> ResolvedApplication {
    ResolvedApplication {
        id: id.to_string(),
        display_name: name.to_string(),
        icon: String::new(),
    }
}

fn open_cmd(id: &str, uri: &str) -> DesktopFileOpenerCommand {
    DesktopFileOpenerCommand::Open(OpenParams {
        uris: vec![uri.to_string()],
        desktop_file_id: id.to_string(),
    })
}

#[test]
fn worker_step_quit_stops() {
    let resolved = vec![app("a", "A")];
    assert!(matches!(
        worker_step(&resolved, DesktopFileOpenerCommand::Quit),
        WorkerStep::Stop
    ));
}

#[test]
fn worker_step_launches_known_id_with_its_uris() {
    let resolved = vec![app("a", "A"), app("b", "B")];
    match worker_step(&resolved, open_cmd("b", "http://x")) {
        WorkerStep::Launch { index, uris } => {
            assert_eq!(index, 1);
            assert_eq!(uris, vec!["http://x".to_string()]);
        }
        _ => panic!("expected a launch"),
    }
}

#[test]
fn worker_step_drops_unknown_id() {
    let resolved = vec![app("a", "A")];
    match worker_step(&resolved, open_cmd("nope", "http://x")) {
        WorkerStep::DropUnknown { desktop_file_id } => {
            assert_eq!(desktop_file_id, "nope");
        }
        _ => panic!("expected the command to be dropped"),
    }
}

#[test]
fn commands_are_processed_sequentially_in_submission_order() {
    let resolved = vec![app("a", "A"), app("b", "B")];
    let cmds = vec![
        open_cmd("a", "u1"),
        open_cmd("unknown", "u2"),
        open_cmd("b", "u3"),
        open_cmd("a", "u4"),
    ];
    let launches = process_commands(&resolved, cmds);
    let ids: Vec<&str> = launches.iter().map(|p| p.desktop_file_id.as_str()).collect();
    let uris: Vec<&str> = launches.iter().map(|p| p.uris[0].as_str()).collect();
    assert_eq!(ids, vec!["a", "b", "a"]);
    assert_eq!(uris, vec!["u1", "u3", "u4"]);
}

#[test]
fn processing_stops_at_the_first_quit() {
    let resolved = vec![app("a", "A")];
    let cmds = vec![
        open_cmd("a", "before"),
        DesktopFileOpenerCommand::Quit,
        open_cmd("a", "after"),
    ];
    let launches = process_commands(&resolved, cmds);
    assert_eq!(launches.len(), 1);
    assert_eq!(launches[0].uris, vec!["before".to_string()]);
}

#[test]
fn find_resolved_returns_the_first_position_with_the_id() {
    let resolved = vec![app("a", "A"), app("b", "B"), app("b", "B2")];
    assert_eq!(find_resolved(&resolved, &"b".to_string()), Some(1));
    assert_eq!(find_resolved(&resolved, &"a".to_string()), Some(0));
    assert_eq!(find_resolved(&resolved, &"c".to_string()), None);
}

fn entry_rule(id: &str, alias: Option<&str>) -> DesktopFileConfig {
    DesktopFileConfig {
        id: id.to_string(),
        path: format!("/apps/{id}.desktop"),
        alias: alias.map(|a| a.to_string()),
        prefixes: None,
        regexps: None,
    }
}

#[test]
fn resolution_skips_missing_entries_and_keeps_rule_order() {
    let cfg = Config {
        desktop_files: vec![
            entry_rule("a", None),
            entry_rule("broken", None),
            entry_rule("c", None),
        ],
    };
    let entries = vec![
        Some(RegistryEntry { name: "App A".to_string(), icon: "icon-a".to_string() }),
        None,
        Some(RegistryEntry { name: "App C".to_string(), icon: String::new() }),
    ];
    let resolved = resolve_desktop_files(&cfg, &entries);
    assert_eq!(resolved.len(), 2);
    assert_eq!(resolved[0].id, "a");
    assert_eq!(resolved[0].display_name, "App A");
    assert_eq!(resolved[0].icon, "icon-a");
    assert_eq!(resolved[1].id, "c");
    assert_eq!(resolved[1].display_name, "App C");
}

#[test]
fn resolution_prefers_the_alias_over_the_registry_name() {
    let cfg = Config {
        desktop_files: vec![entry_rule("a", Some("My Browser"))],
    };
    let entries = vec![Some(RegistryEntry {
        name: "Firefox".to_string(),
        icon: String::new(),
    })];
    let resolved = resolve_desktop_files(&cfg, &entries);
    assert_eq!(resolved[0].display_name, "My Browser");
}

#[test]
fn resolution_is_idempotent() {
    let cfg = Config {
        desktop_files: vec![entry_rule("a", None)],
    };
    let entries = vec![Some(RegistryEntry { name: "A".to_string(), icon: String::new() })];
    let once = resolve_desktop_files(&cfg, &entries);
    let twice = resolve_desktop_files(&cfg, &entries);
    assert_eq!(once.len(), twice.len());
    assert_eq!(once[0].id, twice[0].id);
    assert_eq!(once[0].display_name, twice[0].display_name);
}

#[test]
fn expand_home_replaces_the_shorthand() {
    let home = Some("/home/user".to_string());
    let expanded = expand_home(&"~/apps/x.desktop".to_string(), &home).unwrap();
    assert_eq!(expanded, "/home/user/apps/x.desktop");
}

#[test]
fn expand_home_keeps_plain_paths() {
    let home = Some("/home/user".to_string());
    let expanded = expand_home(&"/usr/share/x.desktop".to_string(), &home).unwrap();
    assert_eq!(expanded, "/usr/share/x.desktop");
    let expanded = expand_home(&"/usr/share/x.desktop".to_string(), &None).unwrap();
    assert_eq!(expanded, "/usr/share/x.desktop");
}

#[test]
fn expand_home_fails_without_a_home_directory() {
    assert!(expand_home(&"~/x.desktop".to_string(), &None).is_none());
}

#[test]
fn first_value_of_reads_the_first_matching_line() {
    let lines: Vec<String> = vec![
        "[Desktop Entry]".to_string(),
        "Icon=firefox".to_string(),
        "Name=Firefox".to_string(),
        "Name=Shadowed".to_string(),
    ];
    assert_eq!(first_value_of(&lines, "Name=").as_deref(), Some("Firefox"));
    assert_eq!(first_value_of(&lines, "Icon=").as_deref(), Some("firefox"));
    assert_eq!(first_value_of(&lines, "Exec="), None);
}

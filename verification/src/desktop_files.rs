//! Launch-worker commands and the resolution of configured rules to
//! launchable applications.
//!
//! The worker owns a single-consumer command queue and handles commands
//! strictly one after another, so launches never race each other. The library
//! holds the worker's decision logic and its sequential processing model; the
//! thread, the blocking queue receive and the external launch call live
//! outside. Resolution joins each configured rule with what the application
//! registry supplies for its desktop entry; rules whose entry is missing or
//! unreadable are skipped.

use vstd::prelude::*;
use crate::config::Config;
use crate::config::DesktopFileConfig;
use crate::strutil::is_prefix_of;
use crate::strutil::str_eq;
use crate::strutil::str_starts_with;

verus! {

/// Parameters of one launch: the URIs to open, and the id of the desktop
/// file to open them with. The id has to be resolved before the command is
/// sent (via the matcher, or via the picker UI).
#[derive(Debug)]
pub struct OpenParams {
    pub uris: Vec<String>,
    pub desktop_file_id: String,
}

/// A command for the launch worker.
pub enum DesktopFileOpenerCommand {
    /// Open URIs with the desktop file of the given id.
    Open(OpenParams),
    /// Quit: the worker's only clean exit (queue disconnection is treated
    /// as an equivalent implicit quit).
    Quit,
}

/// What the application registry supplies for one readable desktop entry:
/// the entry's display name and its icon handle (empty for no icon).
#[derive(Debug)]
pub struct RegistryEntry {
    pub name: String,
    pub icon: String,
}

/// One configured rule joined with its registry entry: what the picker and
/// the `Status` reply display, keyed by the rule's id.
#[derive(Debug)]
pub struct ResolvedApplication {
    pub id: String,
    pub display_name: String,
    pub icon: String,
}

/// The resolved application a rule and its registry entry yield: the rule's
/// id, the alias (when set) or the registry-provided name, and the icon.
pub open spec fn resolved_app_of(rule: DesktopFileConfig, entry: RegistryEntry)
    -> ResolvedApplication {
    ResolvedApplication {
        id: rule.id,
        display_name: match rule.alias {
            Some(alias) => alias,
            None => entry.name,
        },
        icon: entry.icon,
    }
}

/// The resolved applications a rule list yields given each rule's registry
/// entry (`None` for a missing or unreadable entry): one application per
/// readable entry, in rule order.
pub open spec fn resolve_spec(
    rules: Seq<DesktopFileConfig>,
    entries: Seq<Option<RegistryEntry>>,
) -> Seq<ResolvedApplication>
    decreases rules.len(),
{
    if rules.len() == 0 {
        Seq::empty()
    } else {
        let prefix = resolve_spec(rules.drop_last(), entries.take(rules.len() - 1));
        match entries[rules.len() - 1] {
            Some(entry) => prefix.push(resolved_app_of(rules.last(), entry)),
            None => prefix,
        }
    }
}

/// Joins the configured rules with their registry entries, skipping rules
/// whose entry could not be found or read. Reading the registry itself
/// happens outside the library; this pass is idempotent and side-effect
/// free, and may be repeated per need.
pub fn resolve_desktop_files(cfg: &Config, entries: &Vec<Option<RegistryEntry>>) -> (r: Vec<
    ResolvedApplication,
>)
    requires
        entries@.len() == cfg.desktop_files@.len(),
    ensures
        r@ == resolve_spec(cfg.desktop_files@, entries@),
{
    let rules = &cfg.desktop_files;
    let n = rules.len();
    let mut resolved: Vec<ResolvedApplication> = Vec::new();
    for i in 0..n
        invariant
            n == rules@.len(),
            entries@.len() == rules@.len(),
            resolved@ == resolve_spec(rules@.take(i as int), entries@.take(i as int)),
    {
        proof {
            assert(rules@.take(i + 1).drop_last() =~= rules@.take(i as int));
            assert(entries@.take(i + 1).take(i as int) =~= entries@.take(i as int));
            assert(rules@.take(i + 1).last() == rules@[i as int]);
        }
        match &entries[i] {
            Some(entry) => {
                let display_name = match &rules[i].alias {
                    Some(alias) => alias.clone(),
                    None => entry.name.clone(),
                };
                resolved.push(
                    ResolvedApplication {
                        id: rules[i].id.clone(),
                        display_name,
                        icon: entry.icon.clone(),
                    },
                );
            },
            None => {},
        }
    }
    proof {
        assert(rules@.take(n as int) =~= rules@);
        assert(entries@.take(n as int) =~= entries@);
    }
    resolved
}

/// Expands the `~/` home-directory shorthand in a configured desktop-entry
/// path. A path without the shorthand is kept as it is; `~/rest` becomes
/// `home/rest` (modelling a path join with a separator); with the shorthand
/// but no known home directory the path cannot be resolved and its rule is
/// skipped.
pub fn expand_home(path: &String, home: &Option<String>) -> (r: Option<String>)
    ensures
        !is_prefix_of("~/"@, path@) ==> r == Some(*path),
        is_prefix_of("~/"@, path@) && home is Some ==> {
            &&& r is Some
            &&& r->Some_0@ == home->Some_0@ + "/"@ + path@.skip(2)
        },
        is_prefix_of("~/"@, path@) && home is None ==> r is None,
{
    proof {
        reveal_strlit("~/");
        reveal_strlit("/");
    }
    if str_starts_with(path.as_str(), "~/") {
        match home {
            Some(home_dir) => {
                let len = path.as_str().unicode_len();
                let rest = path.as_str().substring_char(2, len);
                let joined = home_dir.clone().concat("/").concat(rest);
                proof {
                    assert(joined@ =~= home->Some_0@ + "/"@ + path@.skip(2));
                }
                Some(joined)
            },
            None => None,
        }
    } else {
        Some(path.clone())
    }
}

/// Value of the first line carrying the given key prefix (`Name=`,
/// `Icon=`): the rest of that line. Reading the desktop entry's lines from
/// disk happens outside the library.
pub fn first_value_of(lines: &Vec<String>, key: &str) -> (r: Option<String>)
    ensures
        match r {
            Some(v) => exists|k: int|
                #![auto]
                {
                    &&& 0 <= k < lines@.len()
                    &&& is_prefix_of(key@, lines@[k]@)
                    &&& v@ == lines@[k]@.skip(key@.len() as int)
                    &&& forall|j: int| 0 <= j < k ==> !is_prefix_of(key@, lines@[j]@)
                },
            None => forall|k: int|
                0 <= k < lines@.len() ==> !is_prefix_of(key@, #[trigger] lines@[k]@),
        },
{
    let n = lines.len();
    for i in 0..n
        invariant
            n == lines@.len(),
            forall|j: int| 0 <= j < i ==> !is_prefix_of(key@, #[trigger] lines@[j]@),
    {
        let line = lines[i].as_str();
        if str_starts_with(line, key) {
            let value = line.substring_char(key.unicode_len(), line.unicode_len()).to_owned();
            proof {
                assert(value@ =~= lines@[i as int]@.skip(key@.len() as int));
            }
            return Some(value);
        }
    }
    None
}

/// Some resolved application carries the given id.
pub open spec fn resolvable(resolved: Seq<ResolvedApplication>, id: Seq<char>) -> bool {
    exists|i: int| 0 <= i < resolved.len() && #[trigger] resolved[i].id@ == id
}

/// Position of the first resolved application with the given id.
pub fn find_resolved(resolved: &Vec<ResolvedApplication>, id: &String) -> (r: Option<usize>)
    ensures
        match r {
            Some(i) => {
                &&& i < resolved@.len()
                &&& resolved@[i as int].id@ == id@
                &&& forall|j: int| 0 <= j < i ==> #[trigger] resolved@[j].id@ != id@
            },
            None => !resolvable(resolved@, id@),
        },
{
    let n = resolved.len();
    for i in 0..n
        invariant
            n == resolved@.len(),
            forall|j: int| 0 <= j < i ==> #[trigger] resolved@[j].id@ != id@,
    {
        if str_eq(resolved[i].id.as_str(), id.as_str()) {
            return Some(i);
        }
    }
    None
}

/// What the worker does with one dequeued command.
pub enum WorkerStep {
    /// Open the URIs with the application at the given position of the
    /// resolved list.
    Launch { index: usize, uris: Vec<String> },
    /// The command named an id that no resolved application carries: the
    /// command is dropped, not retried (launch requests are not safe to
    /// replay blindly).
    DropUnknown { desktop_file_id: String },
    /// Quit: the worker stops.
    Stop,
}

/// Decides one worker iteration: `Quit` stops the worker; an `Open` either
/// launches with the first resolved application carrying the command's id,
/// or is dropped when the id is unknown. The caller performs the action
/// before dequeuing the next command, so commands are handled strictly
/// sequentially, in submission order.
pub fn worker_step(resolved: &Vec<ResolvedApplication>, cmd: DesktopFileOpenerCommand) -> (r:
    WorkerStep)
    ensures
        match cmd {
            DesktopFileOpenerCommand::Quit => r is Stop,
            DesktopFileOpenerCommand::Open(params) => {
                match r {
                    WorkerStep::Launch { index, uris } => {
                        &&& resolvable(resolved@, params.desktop_file_id@)
                        &&& index < resolved@.len()
                        &&& resolved@[index as int].id@ == params.desktop_file_id@
                        &&& forall|j: int|
                            0 <= j < index ==> #[trigger] resolved@[j].id@
                                != params.desktop_file_id@
                        &&& uris == params.uris
                    },
                    WorkerStep::DropUnknown { desktop_file_id } => {
                        &&& !resolvable(resolved@, params.desktop_file_id@)
                        &&& desktop_file_id == params.desktop_file_id
                    },
                    WorkerStep::Stop => false,
                }
            },
        },
{
    match cmd {
        DesktopFileOpenerCommand::Quit => WorkerStep::Stop,
        DesktopFileOpenerCommand::Open(params) => {
            match find_resolved(resolved, &params.desktop_file_id) {
                Some(index) => WorkerStep::Launch { index, uris: params.uris },
                None => WorkerStep::DropUnknown { desktop_file_id: params.desktop_file_id },
            }
        },
    }
}

/// The launches a whole submission list yields: each `Open` whose id
/// resolves produces exactly one launch, in submission order, up to but not
/// past the first `Quit`.
pub open spec fn worker_launches(
    resolved: Seq<ResolvedApplication>,
    cmds: Seq<DesktopFileOpenerCommand>,
) -> Seq<OpenParams>
    decreases cmds.len(),
{
    if cmds.len() == 0 {
        Seq::empty()
    } else {
        match cmds[0] {
            DesktopFileOpenerCommand::Quit => Seq::empty(),
            DesktopFileOpenerCommand::Open(params) => {
                let rest = worker_launches(resolved, cmds.skip(1));
                if resolvable(resolved, params.desktop_file_id@) {
                    seq![params] + rest
                } else {
                    rest
                }
            },
        }
    }
}

/// Processes a submission list as the worker does: strictly sequentially,
/// one command fully handled before the next is dequeued. Returns the launch
/// commands issued, which are exactly the resolvable `Open`s before the
/// first `Quit`, in submission order — two launches never race, and
/// submission order is execution order.
#[verifier::loop_isolation(false)]
pub fn process_commands(
    resolved: &Vec<ResolvedApplication>,
    cmds: Vec<DesktopFileOpenerCommand>,
) -> (launches: Vec<OpenParams>)
    ensures
        launches@ == worker_launches(resolved@, cmds@),
{
    let ghost submitted = cmds@;
    let mut queue = cmds;
    let mut launches: Vec<OpenParams> = Vec::new();
    loop
        invariant
            launches@ + worker_launches(resolved@, queue@) == worker_launches(
                resolved@,
                submitted,
            ),
        decreases queue@.len(),
    {
        if queue.len() == 0 {
            proof {
                assert(launches@ + worker_launches(resolved@, queue@) =~= launches@);
            }
            return launches;
        }
        let ghost queue_before = queue@;
        let cmd = queue.remove(0);
        proof {
            assert(queue@ =~= queue_before.skip(1));
        }
        match cmd {
            DesktopFileOpenerCommand::Quit => {
                proof {
                    assert(worker_launches(resolved@, queue_before) =~= Seq::<
                        OpenParams,
                    >::empty());
                    assert(launches@ + Seq::<OpenParams>::empty() =~= launches@);
                }
                return launches;
            },
            DesktopFileOpenerCommand::Open(params) => {
                match find_resolved(resolved, &params.desktop_file_id) {
                    Some(_) => {
                        proof {
                            assert(resolvable(resolved@, params.desktop_file_id@));
                            assert(worker_launches(resolved@, queue_before) =~= seq![params]
                                + worker_launches(resolved@, queue@));
                            assert((launches@ + (seq![params] + worker_launches(
                                resolved@,
                                queue@,
                            ))) =~= (launches@.push(params) + worker_launches(resolved@, queue@)));
                        }
                        launches.push(params);
                    },
                    None => {
                        proof {
                            assert(worker_launches(resolved@, queue_before) =~= worker_launches(
                                resolved@,
                                queue@,
                            ));
                        }
                    },
                }
            },
        }
    }
}

} // verus!

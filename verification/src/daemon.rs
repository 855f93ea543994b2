//! The RPC dispatcher: the daemon's command-and-control surface.
//!
//! The dispatcher holds the daemon-lifetime state (loaded configuration and
//! current default application) and handles each typed request: `Open`
//! resolves the URI against the rules and either forwards a launch command
//! to the worker or hands the URI to the picker UI; `Status` reports the
//! configured applications and the default; `SetDefault` and
//! `SetDefaultNext` mutate the default under single-writer discipline;
//! `Kill` acknowledges and leaves process termination to the embedding.
//! The transport that invokes these methods lives outside the library.

use vstd::prelude::*;
use std::sync::mpsc::Sender;
use crate::config::Config;
use crate::config::DesktopFileConfig;
use crate::dbus::KillCmdInputs;
use crate::dbus::KillCmdOutputs;
use crate::dbus::OpenCmdInputs;
use crate::dbus::OpenCmdOutputs;
use crate::dbus::OpenCmdOutputsStatus;
use crate::dbus::SetDefaultCmdInputs;
use crate::dbus::SetDefaultCmdOutputs;
use crate::dbus::StatusCmdInputs;
use crate::dbus::StatusCmdOutputApplication;
use crate::dbus::StatusCmdOutputs;
use crate::desktop_files::DesktopFileOpenerCommand;
use crate::desktop_files::OpenParams;
use crate::desktop_files::ResolvedApplication;
use crate::desktop_files::find_resolved;
use crate::desktop_files::resolvable;
use crate::strutil::str_eq;

verus! {

/// Declares `std::sync::mpsc::Sender` so the worker hand-off can live in a
/// field; the library sends through it only via `send_opener_command`.
#[verifier::external_type_specification]
#[verifier::external_body]
#[verifier::reject_recursive_types(T)]
pub struct ExMpscSender<T>(Sender<T>);

/// Declares `async_channel::Sender` so the UI hand-off slot can live in a
/// field; the library sends through it only via `send_ui_uri`.
#[verifier::external_type_specification]
#[verifier::external_body]
#[verifier::reject_recursive_types(T)]
pub struct ExAsyncSender<T>(async_channel::Sender<T>);

/// Relies on `std::sync::mpsc::Sender::send`: queues the command for the
/// worker's single receiver, returning whether it was accepted; the send
/// fails only when the receiver has disconnected.
#[verifier::external_body]
fn send_opener_command(tx: &Sender<DesktopFileOpenerCommand>, cmd: DesktopFileOpenerCommand) -> (r:
    bool) {
    tx.send(cmd).is_ok()
}

/// Relies on `async_channel::Sender::send_blocking` (async-channel 2.5):
/// blocks while the capacity-one hand-off slot is full, delivers `uri` once
/// there is room, and fails only when the channel is closed.
#[verifier::external_body]
fn send_ui_uri(tx: &async_channel::Sender<String>, uri: String) -> (r: bool) {
    tx.send_blocking(uri).is_ok()
}

/// A failure the dispatcher reports to the RPC caller. None of these is
/// fatal to the daemon.
#[derive(Debug, PartialEq, Eq, Structural)]
pub enum DaemonError {
    /// The launch worker's queue is gone: the command could not be sent.
    SendCommandFailed,
    /// The UI hand-off channel is closed: the fallback could not be sent.
    SendUiFailed,
    /// `SetDefault` was called with an out-of-range non-negative index.
    InvalidIndex(i64),
}

/// Position of the first rule carrying the given id.
fn find_rule_index(rules: &Vec<DesktopFileConfig>, id: &String) -> (r: Option<usize>)
    ensures
        match r {
            Some(i) => {
                &&& i < rules@.len()
                &&& rules@[i as int].id@ == id@
                &&& forall|j: int| 0 <= j < i ==> #[trigger] rules@[j].id@ != id@
            },
            None => forall|j: int| 0 <= j < rules@.len() ==> #[trigger] rules@[j].id@ != id@,
        },
{
    let n = rules.len();
    for i in 0..n
        invariant
            n == rules@.len(),
            forall|j: int| 0 <= j < i ==> #[trigger] rules@[j].id@ != id@,
    {
        if str_eq(rules[i].id.as_str(), id.as_str()) {
            return Some(i);
        }
    }
    None
}

/// Position of the first rule carrying the given id, scanning in configured
/// order.
pub open spec fn index_of_id(rules: Seq<DesktopFileConfig>, id: Seq<char>) -> Option<int>
    decreases rules.len(),
{
    if rules.len() == 0 {
        None
    } else if rules[0].id@ == id {
        Some(0int)
    } else {
        match index_of_id(rules.skip(1), id) {
            Some(i) => Some(i + 1),
            None => None,
        }
    }
}

/// The default id after one `SetDefaultNext` step: no default advances to
/// the first rule; a rule's id advances to the next rule's id, wrapping to
/// no default past the last rule; an id no rule carries clears the default.
pub open spec fn next_default(rules: Seq<DesktopFileConfig>, current: Option<String>) -> Option<
    String,
> {
    match current {
        None => {
            if rules.len() == 0 {
                None
            } else {
                Some(rules[0].id)
            }
        },
        Some(id) => {
            match index_of_id(rules, id@) {
                Some(i) => {
                    if i + 1 < rules.len() {
                        Some(rules[i + 1].id)
                    } else {
                        None
                    }
                },
                None => None,
            }
        },
    }
}

/// `next_default` applied `k` times.
pub open spec fn iterate_next(
    rules: Seq<DesktopFileConfig>,
    current: Option<String>,
    k: nat,
) -> Option<String>
    decreases k,
{
    if k == 0 {
        current
    } else {
        iterate_next(rules, next_default(rules, current), (k - 1) as nat)
    }
}

proof fn lemma_index_of_id_first(rules: Seq<DesktopFileConfig>, id: Seq<char>, i: int)
    requires
        0 <= i < rules.len(),
        rules[i].id@ == id,
        forall|j: int| 0 <= j < i ==> #[trigger] rules[j].id@ != id,
    ensures
        index_of_id(rules, id) == Some(i),
    decreases i,
{
    if i == 0 {
    } else {
        assert(rules[0].id@ != id);
        assert(rules.skip(1)[i - 1] == rules[i]);
        assert forall|j: int| 0 <= j < i - 1 implies #[trigger] rules.skip(1)[j].id@ != id by {
            assert(rules.skip(1)[j] == rules[j + 1]);
        }
        lemma_index_of_id_first(rules.skip(1), id, i - 1);
    }
}

proof fn lemma_index_of_id_none(rules: Seq<DesktopFileConfig>, id: Seq<char>)
    requires
        forall|j: int| 0 <= j < rules.len() ==> #[trigger] rules[j].id@ != id,
    ensures
        index_of_id(rules, id) is None,
    decreases rules.len(),
{
    if rules.len() == 0 {
    } else {
        assert forall|j: int| 0 <= j < rules.len() - 1 implies #[trigger] rules.skip(1)[j].id@
            != id by {
            assert(rules.skip(1)[j] == rules[j + 1]);
        }
        lemma_index_of_id_none(rules.skip(1), id);
    }
}

/// With pairwise-distinct ids, stepping from rule `k`'s id walks the rest
/// of the list and falls off its end to no default.
proof fn lemma_cycle_from(cfg: Config, k: int)
    requires
        cfg.ids_unique(),
        0 <= k < cfg.desktop_files@.len(),
    ensures
        iterate_next(
            cfg.desktop_files@,
            Some(cfg.desktop_files@[k].id),
            (cfg.desktop_files@.len() - k) as nat,
        ) == None::<String>,
    decreases cfg.desktop_files@.len() - k,
{
    let rules = cfg.desktop_files@;
    assert forall|j: int| 0 <= j < k implies #[trigger] rules[j].id@ != rules[k].id@ by {
        assert(cfg.desktop_files@[j].id@ != cfg.desktop_files@[k].id@);
    }
    lemma_index_of_id_first(rules, rules[k].id@, k);
    let steps = (rules.len() - k) as nat;
    assert(iterate_next(rules, Some(rules[k].id), steps) == iterate_next(
        rules,
        next_default(rules, Some(rules[k].id)),
        (steps - 1) as nat,
    ));
    if k + 1 < rules.len() {
        assert(next_default(rules, Some(rules[k].id)) == Some(rules[k + 1].id));
        lemma_cycle_from(cfg, k + 1);
        assert((steps - 1) as nat == (rules.len() - (k + 1)) as nat);
    } else {
        assert(next_default(rules, Some(rules[k].id)) is None);
        assert(iterate_next(rules, None::<String>, 0nat) == None::<String>);
    }
}

/// `SetDefaultNext` cycles through the configured rules and back to no
/// default: with pairwise-distinct rule ids, applying its step once per
/// rule and once more, starting from no default, visits
/// `rule 0, rule 1, …, rule n-1` and returns to no default.
pub proof fn lemma_set_default_next_cycle(cfg: Config)
    requires
        cfg.ids_unique(),
    ensures
        iterate_next(cfg.desktop_files@, None::<String>, (cfg.desktop_files@.len() + 1) as nat)
            == None::<String>,
{
    let rules = cfg.desktop_files@;
    let total = (rules.len() + 1) as nat;
    assert(iterate_next(rules, None::<String>, total) == iterate_next(
        rules,
        next_default(rules, None::<String>),
        (total - 1) as nat,
    ));
    if rules.len() == 0 {
        assert(next_default(rules, None::<String>) is None);
        assert(iterate_next(rules, None::<String>, 0nat) == None::<String>);
    } else {
        assert(next_default(rules, None::<String>) == Some(rules[0].id));
        lemma_cycle_from(cfg, 0);
        assert((total - 1) as nat == (rules.len() - 0) as nat);
    }
}

proof fn lemma_iterate_next_add(
    rules: Seq<DesktopFileConfig>,
    current: Option<String>,
    a: nat,
    b: nat,
)
    ensures
        iterate_next(rules, current, a + b) == iterate_next(
            rules,
            iterate_next(rules, current, a),
            b,
        ),
    decreases a,
{
    if a > 0 {
        lemma_iterate_next_add(rules, next_default(rules, current), (a - 1) as nat, b);
    }
}

/// Repeated full cycles are idempotent: any number of complete
/// `SetDefaultNext` passes from no default returns to no default.
pub proof fn lemma_set_default_next_cycle_idempotent(cfg: Config, m: nat)
    requires
        cfg.ids_unique(),
    ensures
        iterate_next(cfg.desktop_files@, None::<String>, m * (cfg.desktop_files@.len() + 1))
            == None::<String>,
    decreases m,
{
    let rules = cfg.desktop_files@;
    let cycle = (rules.len() + 1) as nat;
    if m == 0 {
        assert(m * cycle == 0) by (nonlinear_arith)
            requires
                m == 0,
        ;
    } else {
        lemma_set_default_next_cycle_idempotent(cfg, (m - 1) as nat);
        lemma_iterate_next_add(rules, None::<String>, ((m - 1) as nat) * cycle, cycle);
        assert(m * cycle == ((m - 1) as nat) * cycle + cycle) by (nonlinear_arith)
            requires
                m >= 1,
        ;
        lemma_set_default_next_cycle(cfg);
    }
}

/// What an `Open` request asks for: either a launch command for the worker,
/// or the URI handed to the picker UI.
pub enum OpenDecision {
    /// Some rule matched: open the URI with that rule's application.
    Launch(OpenParams),
    /// No rule matched: surface the picker for this URI.
    Fallback(String),
}

/// Decides an `Open` request against the configured rules: when some rule
/// matches the URI, the launch command carries exactly that URI and the
/// first matching rule's id; when none matches, the URI itself goes to the
/// picker.
pub fn open_decision(cfg: &Config, uri: String) -> (r: OpenDecision)
    ensures
        match r {
            OpenDecision::Launch(p) => {
                &&& cfg.some_rule_matches(uri@)
                &&& p.uris@ == seq![uri]
                &&& exists|i: int|
                    {
                        &&& 0 <= i < cfg.desktop_files@.len()
                        &&& p.desktop_file_id == cfg.desktop_files@[i].id
                        &&& cfg.desktop_files@[i].matches(uri@)
                        &&& forall|j: int| 0 <= j < i ==> !cfg.desktop_files@[j].matches(uri@)
                    }
            },
            OpenDecision::Fallback(u) => {
                &&& !cfg.some_rule_matches(uri@)
                &&& u == uri
            },
        },
{
    match cfg.find_matching_desktop_file(uri.as_str()) {
        Some(desktop_file) => {
            let desktop_file_id = desktop_file.id.clone();
            let ghost chosen = *desktop_file;
            let mut uris: Vec<String> = Vec::new();
            let ghost uri_value = uri;
            uris.push(uri);
            proof {
                assert(uris@ =~= seq![uri_value]);
                let i = choose|i: int|
                    {
                        &&& 0 <= i < cfg.desktop_files@.len()
                        &&& chosen == cfg.desktop_files@[i]
                        &&& cfg.desktop_files@[i].matches(uri_value@)
                        &&& forall|j: int| 0 <= j < i ==> !cfg.desktop_files@[j].matches(uri_value@)
                    };
                assert(desktop_file_id == cfg.desktop_files@[i].id);
            }
            OpenDecision::Launch(OpenParams { uris, desktop_file_id })
        },
        None => OpenDecision::Fallback(uri),
    }
}

/// The daemon's dispatcher state: the immutable configuration, the current
/// default application, and the two outgoing hand-off channels. Only the
/// dispatcher mutates this state, and the transport serializes the
/// administrative calls, so every `Status` read observes either the old or
/// the new default, never a partial value.
pub struct Daemon {
    /// The configured rules, immutable for the daemon's lifetime.
    pub cfg: Config,
    /// The rule id designated to auto-handle fallback cases, if any.
    pub default_application_id: Option<String>,
    /// Hand-off to the launch worker's single-consumer queue.
    pub desktop_files_tx: Sender<DesktopFileOpenerCommand>,
    /// Hand-off to the picker UI, a capacity-one slot.
    pub toggle_ui_tx: async_channel::Sender<String>,
}

impl Daemon {
    /// A fresh dispatcher: the given configuration, no default application,
    /// and the worker and UI hand-off channels to forward into.
    pub fn new(
        cfg: Config,
        desktop_files_tx: Sender<DesktopFileOpenerCommand>,
        toggle_ui_tx: async_channel::Sender<String>,
    ) -> (r: Daemon)
        ensures
            r.cfg == cfg,
            r.default_application_id is None,
            r.desktop_files_tx == desktop_files_tx,
            r.toggle_ui_tx == toggle_ui_tx,
    {
        Daemon { cfg, default_application_id: None, desktop_files_tx, toggle_ui_tx }
    }

    /// Handles `Open`: decides the request with `open_decision` and sends
    /// exactly that decision's value — the launch command carrying the URI
    /// and the first matching rule's id to the worker, or the URI to the
    /// picker UI (blocking while an earlier fallback is still pending).
    /// `Launched` or `Fallbacked` acknowledges the hand-off, not the user's
    /// choice. An error is reported only when the respective channel is
    /// gone.
    pub fn open(&self, inputs: OpenCmdInputs) -> (r: Result<OpenCmdOutputs, DaemonError>)
        ensures
            r is Ok ==> ((r->Ok_0.status == OpenCmdOutputsStatus::Launched)
                <==> self.cfg.some_rule_matches(inputs.uri@)),
            r is Err && self.cfg.some_rule_matches(inputs.uri@) ==> r->Err_0
                == DaemonError::SendCommandFailed,
            r is Err && !self.cfg.some_rule_matches(inputs.uri@) ==> r->Err_0
                == DaemonError::SendUiFailed,
    {
        match open_decision(&self.cfg, inputs.uri) {
            OpenDecision::Launch(params) => {
                if send_opener_command(
                    &self.desktop_files_tx,
                    DesktopFileOpenerCommand::Open(params),
                ) {
                    Ok(OpenCmdOutputs { status: OpenCmdOutputsStatus::Launched })
                } else {
                    Err(DaemonError::SendCommandFailed)
                }
            },
            OpenDecision::Fallback(uri) => {
                if send_ui_uri(&self.toggle_ui_tx, uri) {
                    Ok(OpenCmdOutputs { status: OpenCmdOutputsStatus::Fallbacked })
                } else {
                    Err(DaemonError::SendUiFailed)
                }
            },
        }
    }

    /// Handles `Status`: reports the current default application id and one
    /// entry per configured rule, in rule order, drawn from the given fresh
    /// resolution pass. Read-only.
    pub fn status(&self, _inputs: StatusCmdInputs, resolved: &Vec<ResolvedApplication>) -> (r:
        StatusCmdOutputs)
        ensures
            r.default_application_id == self.default_application_id,
            r.applications@.len() == self.cfg.desktop_files@.len(),
            forall|i: int|
                0 <= i < self.cfg.desktop_files@.len() ==> status_entry_ok(
                    self.cfg.desktop_files@[i],
                    resolved@,
                    #[trigger] r.applications@[i],
                ),
    {
        let rules = &self.cfg.desktop_files;
        let n = rules.len();
        let mut applications: Vec<StatusCmdOutputApplication> = Vec::new();
        for i in 0..n
            invariant
                n == rules@.len(),
                applications@.len() == i,
                forall|j: int|
                    0 <= j < i ==> status_entry_ok(
                        rules@[j],
                        resolved@,
                        #[trigger] applications@[j],
                    ),
        {
            let rule = &rules[i];
            let entry = match find_resolved(resolved, &rule.id) {
                Some(k) => StatusCmdOutputApplication {
                    id: rule.id.clone(),
                    name: resolved[k].display_name.clone(),
                    icon: resolved[k].icon.clone(),
                },
                None => StatusCmdOutputApplication {
                    id: rule.id.clone(),
                    name: match &rule.alias {
                        Some(alias) => alias.clone(),
                        None => rule.id.clone(),
                    },
                    icon: String::new(),
                },
            };
            applications.push(entry);
        }
        let default_application_id = match &self.default_application_id {
            Some(id) => Some(id.clone()),
            None => None,
        };
        StatusCmdOutputs { applications, default_application_id }
    }

    /// Handles `Kill`: acknowledges without touching any state. Process
    /// termination is scheduled by the embedding shortly after the reply is
    /// delivered — an abrupt exit by design, which deliberately does not
    /// drain the worker or the UI.
    pub fn kill(&mut self, _inputs: KillCmdInputs) -> (r: Result<KillCmdOutputs, DaemonError>)
        ensures
            r is Ok,
            *final(self) == *old(self),
    {
        Ok(KillCmdOutputs {  })
    }

    /// Handles `SetDefault`: a negative index always clears the default; a
    /// valid index designates that rule's id; an out-of-range non-negative
    /// index changes nothing and is reported to the caller.
    pub fn set_default(&mut self, inputs: SetDefaultCmdInputs) -> (r: Result<
        SetDefaultCmdOutputs,
        DaemonError,
    >)
        ensures
            final(self).cfg == old(self).cfg,
            final(self).desktop_files_tx == old(self).desktop_files_tx,
            final(self).toggle_ui_tx == old(self).toggle_ui_tx,
            inputs.index < 0 ==> r is Ok && final(self).default_application_id is None,
            0 <= inputs.index < old(self).cfg.desktop_files@.len() ==> {
                &&& r is Ok
                &&& final(self).default_application_id == Some(
                    old(self).cfg.desktop_files@[inputs.index as int].id,
                )
            },
            inputs.index >= old(self).cfg.desktop_files@.len() ==> {
                &&& r is Err
                &&& r->Err_0 == DaemonError::InvalidIndex(inputs.index)
                &&& final(self).default_application_id == old(self).default_application_id
            },
    {
        if inputs.index < 0 {
            self.default_application_id = None;
            return Ok(SetDefaultCmdOutputs {  });
        }
        let wanted = inputs.index as u64;
        if wanted < self.cfg.desktop_files.len() as u64 {
            let index = wanted as usize;
            self.default_application_id = Some(self.cfg.desktop_files[index].id.clone());
            Ok(SetDefaultCmdOutputs {  })
        } else {
            Err(DaemonError::InvalidIndex(inputs.index))
        }
    }

    /// Advances the default application by one position through the rule
    /// list: no default becomes the first rule, each rule's id the next
    /// rule's, and the last rule wraps back to no default.
    pub fn set_default_next(&mut self) -> (r: Result<SetDefaultCmdOutputs, DaemonError>)
        ensures
            r is Ok,
            final(self).cfg == old(self).cfg,
            final(self).desktop_files_tx == old(self).desktop_files_tx,
            final(self).toggle_ui_tx == old(self).toggle_ui_tx,
            final(self).default_application_id == next_default(
                old(self).cfg.desktop_files@,
                old(self).default_application_id,
            ),
    {
        let rules_len = self.cfg.desktop_files.len();
        let new_default: Option<String> = match &self.default_application_id {
            None => {
                if rules_len == 0 {
                    None
                } else {
                    Some(self.cfg.desktop_files[0].id.clone())
                }
            },
            Some(current) => {
                match find_rule_index(&self.cfg.desktop_files, current) {
                    Some(i) => {
                        proof {
                            lemma_index_of_id_first(self.cfg.desktop_files@, current@, i as int);
                        }
                        if i + 1 < rules_len {
                            Some(self.cfg.desktop_files[i + 1].id.clone())
                        } else {
                            None
                        }
                    },
                    None => {
                        proof {
                            lemma_index_of_id_none(self.cfg.desktop_files@, current@);
                        }
                        None
                    },
                }
            },
        };
        self.default_application_id = new_default;
        Ok(SetDefaultCmdOutputs {  })
    }
}

/// The status entry shown for one rule: always the rule's id; when some
/// resolved application carries that id, the first such supplies the
/// display name and icon; otherwise the alias (or the id itself) is shown
/// with no icon.
pub open spec fn status_entry_ok(
    rule: DesktopFileConfig,
    resolved: Seq<ResolvedApplication>,
    app: StatusCmdOutputApplication,
) -> bool {
    &&& app.id == rule.id
    &&& if resolvable(resolved, rule.id@) {
        exists|k: int|
            #![auto]
            {
                &&& 0 <= k < resolved.len()
                &&& resolved[k].id@ == rule.id@
                &&& forall|j: int| 0 <= j < k ==> resolved[j].id@ != rule.id@
                &&& app.name == resolved[k].display_name
                &&& app.icon == resolved[k].icon
            }
    } else {
        &&& app.name == (match rule.alias {
            Some(alias) => alias,
            None => rule.id,
        })
        &&& app.icon@ == Seq::<char>::empty()
    }
}

} // verus!

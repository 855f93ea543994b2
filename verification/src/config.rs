//! Configured application rules and the URI matcher.
//!
//! A rule associates URI-matching criteria (literal prefixes and regular
//! expressions) with an application identity. The matcher walks the rules in
//! configured order and returns the first one that matches; a rule with
//! neither prefixes nor regexps is structurally inert and never matches.
//! Reading and parsing the configuration file happens outside the library;
//! the library receives the already-built rule list.

use vstd::prelude::*;
use crate::strutil::is_prefix_of;
use crate::strutil::str_starts_with;

verus! {

/// What compiling `pattern` and searching `text` with it computes: true iff
/// `pattern` is a valid regular expression (within the default size limit)
/// and it matches somewhere in `text`. The result depends on the two strings
/// alone.
pub uninterp spec fn regex_match(pattern: Seq<char>, text: Seq<char>) -> bool;

/// Relies on `regex::Regex::new` and `regex::Regex::is_match`: `new` returns
/// `Err` exactly on patterns that are invalid or over the size limit, and
/// `is_match` reports whether the compiled pattern matches anywhere in
/// `text`; both are functions of their string arguments alone.
#[verifier::external_body]
fn regex_match_uri(pattern: &String, text: &str) -> (r: bool)
    ensures
        r == regex_match(pattern@, text@),
{
    match regex::Regex::new(pattern) {
        Ok(re) => re.is_match(text),
        Err(_) => false,
    }
}

/// One configured association between URI-matching criteria and an
/// application identity.
#[derive(Clone, Debug)]
pub struct DesktopFileConfig {
    /// Stable identity used internally (not displayed to the user).
    pub id: String,
    /// On-disk location of the application's desktop entry; may begin with
    /// the `~/` home-directory shorthand.
    pub path: String,
    /// If set, displayed instead of the name read from the desktop entry.
    pub alias: Option<String>,
    /// A URI matches if it starts with any of these literal prefixes.
    pub prefixes: Option<Vec<String>>,
    /// A URI matches if any of these regular expressions matches it.
    pub regexps: Option<Vec<String>>,
}

impl DesktopFileConfig {
    /// Some prefix of this rule is a prefix of `uri`.
    pub open spec fn prefix_matches(self, uri: Seq<char>) -> bool {
        self.prefixes is Some && exists|i: int|
            0 <= i < self.prefixes->Some_0@.len() && is_prefix_of(
                self.prefixes->Some_0@[i]@,
                uri,
            )
    }

    /// Some regular expression of this rule matches `uri`.
    pub open spec fn pattern_matches(self, uri: Seq<char>) -> bool {
        self.regexps is Some && exists|i: int|
            0 <= i < self.regexps->Some_0@.len() && regex_match(self.regexps->Some_0@[i]@, uri)
    }

    /// The rule matches `uri`: one of its prefixes or one of its regular
    /// expressions does. A rule with neither prefixes nor regexps never
    /// matches.
    pub open spec fn matches(self, uri: Seq<char>) -> bool {
        self.prefix_matches(uri) || self.pattern_matches(uri)
    }

    /// Prefixes are tested before regular expressions; a rule without any
    /// criteria is rejected up front. An invalid regular expression matches
    /// nothing, so a rule whose regexps are all broken degrades to
    /// prefix-only matching.
    pub fn match_uri(&self, uri: &str) -> (r: bool)
        ensures
            r == self.matches(uri@),
    {
        if self.prefixes.is_none() && self.regexps.is_none() {
            return false;
        }
        // testing prefixes first: cheaper than regexps
        if let Some(prefixes) = &self.prefixes {
            let n = prefixes.len();
            for i in 0..n
                invariant
                    n == prefixes@.len(),
                    self.prefixes == Some(*prefixes),
                    forall|j: int| 0 <= j < i ==> !is_prefix_of(prefixes@[j]@, uri@),
            {
                if str_starts_with(uri, prefixes[i].as_str()) {
                    assert(self.prefix_matches(uri@)) by {
                        assert(is_prefix_of(self.prefixes->Some_0@[i as int]@, uri@));
                    }
                    return true;
                }
            }
        }
        if let Some(regexps) = &self.regexps {
            let n = regexps.len();
            for i in 0..n
                invariant
                    n == regexps@.len(),
                    self.regexps == Some(*regexps),
                    !self.prefix_matches(uri@),
                    forall|j: int| 0 <= j < i ==> !regex_match(regexps@[j]@, uri@),
            {
                if regex_match_uri(&regexps[i], uri) {
                    assert(self.pattern_matches(uri@)) by {
                        assert(regex_match(self.regexps->Some_0@[i as int]@, uri@));
                    }
                    return true;
                }
            }
        }
        false
    }
}

/// The immutable rule list, in configured order.
#[derive(Clone, Debug)]
pub struct Config {
    pub desktop_files: Vec<DesktopFileConfig>,
}

impl Config {
    /// Rule ids are pairwise distinct: the id is the stable join key used
    /// throughout the daemon, so no two rules may share one.
    pub open spec fn ids_unique(self) -> bool {
        forall|i: int, j: int|
            #![trigger self.desktop_files@[i], self.desktop_files@[j]]
            0 <= i < j < self.desktop_files@.len() ==> self.desktop_files@[i].id@
                != self.desktop_files@[j].id@
    }

    /// Some rule of `self` matches `uri`.
    pub open spec fn some_rule_matches(self, uri: Seq<char>) -> bool {
        exists|i: int| 0 <= i < self.desktop_files@.len() && self.desktop_files@[i].matches(uri)
    }

    /// Returns the first rule, in configured order, whose prefixes or
    /// regexps match `uri`; `None` when no rule matches.
    pub fn find_matching_desktop_file(&self, uri: &str) -> (r: Option<&DesktopFileConfig>)
        ensures
            match r {
                Some(df) => exists|i: int|
                    {
                        &&& 0 <= i < self.desktop_files@.len()
                        &&& *df == self.desktop_files@[i]
                        &&& self.desktop_files@[i].matches(uri@)
                        &&& forall|j: int| 0 <= j < i ==> !self.desktop_files@[j].matches(uri@)
                    },
                None => !self.some_rule_matches(uri@),
            },
    {
        let n = self.desktop_files.len();
        for i in 0..n
            invariant
                n == self.desktop_files@.len(),
                forall|j: int| 0 <= j < i ==> !self.desktop_files@[j].matches(uri@),
        {
            if self.desktop_files[i].match_uri(uri) {
                return Some(&self.desktop_files[i]);
            }
        }
        None
    }
}

/// Per rule, a prefix match alone decides the outcome positively: whatever
/// the rule's regexps say (broken or not), a rule one of whose prefixes
/// matches `uri` matches `uri`.
pub proof fn lemma_prefix_match_suffices(rule: DesktopFileConfig, uri: Seq<char>)
    requires
        rule.prefix_matches(uri),
    ensures
        rule.matches(uri),
{
}

/// When no prefix of the rule matches, the regexps alone decide: the match
/// outcome equals the pattern check, so a broken prefix list cannot mask a
/// working regexp, and vice versa.
pub proof fn lemma_patterns_decide_without_prefix(rule: DesktopFileConfig, uri: Seq<char>)
    requires
        !rule.prefix_matches(uri),
    ensures
        rule.matches(uri) == rule.pattern_matches(uri),
{
}

} // verus!

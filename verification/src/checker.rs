//! The checker itself: compiled rules, the violation store, and the
//! two-phase lifecycle gate.
//!
//! A checker is built once from raw options. The host hands it each artifact
//! as it becomes available; every scan appends its violations to the store
//! and never fails by itself. One final call drains the store: an empty store
//! lets the build proceed, a non-empty one fails it with every message joined
//! by newlines, in the order the violations were recorded.

use vstd::prelude::*;

use crate::report::{join_messages, joined_messages, Violation, ViolationView};
use crate::rules::{RuleSet, RuleSetView};
use crate::scan::{
    any_hits, any_pattern_matches, collect_violations, domain_violations, find_unallowed_domains_in,
    risky_violations, scan_violations, unallowed_domains,
};
use crate::RspackCodeCheckerPluginOptions;

verus! {

/// Where one checker stands in its build: fresh, mid-scan, or drained.
#[derive(PartialEq, Eq, Structural, Clone, Copy, Debug)]
pub enum GateState {
    /// No artifact seen yet.
    Idle,
    /// At least one artifact scanned, the verdict still open.
    Scanning,
    /// The verdict given; terminal for this build.
    Finalized,
}

/// A checker that scans named text artifacts for unallowed domains and risky
/// patterns, and turns what it accumulated into one pass/fail verdict.
pub struct RspackCodeCheckerPlugin {
    rules: RuleSet,
    errors: Vec<Violation>,
    state: GateState,
}

/// The mathematical content of a [`RspackCodeCheckerPlugin`].
pub struct CheckerView {
    pub rules: RuleSetView,
    pub errors: Seq<ViolationView>,
    pub state: GateState,
}

impl View for RspackCodeCheckerPlugin {
    type V = CheckerView;

    closed spec fn view(&self) -> CheckerView {
        CheckerView {
            rules: self.rules@,
            errors: self.errors@.map_values(|v: Violation| v@),
            state: self.state,
        }
    }
}

impl RspackCodeCheckerPlugin {
    /// Builds a checker from raw options: every pattern list is compiled
    /// best-effort, the store starts empty, and the lifecycle starts idle.
    pub fn new(options: &RspackCodeCheckerPluginOptions) -> (r: Self)
        ensures
            r@.rules.risky == options.risky_string_check.deep_view().filter(
                crate::rules::valid_pattern(),
            ),
            r@.rules.allow == options.allowed_domain_resources.deep_view().filter(
                crate::rules::valid_pattern(),
            ),
            r@.rules.domain == (match options.domain_regex {
                Some(ref p) => if crate::matching::regex_compiles(p@) {
                    p@
                } else {
                    crate::rules::spec_default_domain_pattern()
                },
                None => crate::rules::spec_default_domain_pattern(),
            }),
            r@.rules.exclude == (match options.exclude_modules {
                Some(ref pats) => pats.deep_view().filter(crate::rules::valid_pattern()),
                None => Seq::<Seq<char>>::empty(),
            }),
            r@.errors == Seq::<ViolationView>::empty(),
            r@.state == GateState::Idle,
    {
        let rules = RuleSet::from_options(options);
        let errors: Vec<Violation> = Vec::new();
        proof {
            assert(errors@.map_values(|v: Violation| v@) =~= Seq::<ViolationView>::empty());
        }
        RspackCodeCheckerPlugin { rules, errors, state: GateState::Idle }
    }

    /// The compiled rules this checker scans with.
    pub fn rules(&self) -> (r: &RuleSet)
        ensures
            r@ == self@.rules,
    {
        &self.rules
    }

    /// The display name of this checker.
    pub fn name(&self) -> (r: &'static str)
        ensures
            r@ == "RspackCodeCheckerPlugin"@,
    {
        "RspackCodeCheckerPlugin"
    }

    /// Whether the artifact called `module_name` is excluded from scanning.
    pub fn should_exclude_module(&self, module_name: &str) -> (r: bool)
        ensures
            r == any_hits(self@.rules.exclude, module_name@),
    {
        any_pattern_matches(&self.rules.exclude_regexes, module_name)
    }

    /// The distinct domains of `code` that the allow-list does not permit,
    /// in extraction order.
    pub fn find_unallowed_domains(&self, code: &str) -> (r: Vec<String>)
        ensures
            r.deep_view() == unallowed_domains(self@.rules, code@),
    {
        find_unallowed_domains_in(&self.rules, code)
    }

    /// Appends one violation to the store.
    pub fn add_error(&mut self, violation: Violation)
        ensures
            final(self)@.rules == old(self)@.rules,
            final(self)@.state == old(self)@.state,
            final(self)@.errors == old(self)@.errors.push(violation@),
    {
        self.errors.push(violation);
        proof {
            assert(self.errors@.map_values(|v: Violation| v@) =~= old(self)@.errors.push(
                violation@,
            ));
        }
    }

    /// Scans `code` as the content of the artifact `module_name` and records
    /// every violation found: unallowed domains first, matching risky
    /// patterns after, with no exclusion applied.
    pub fn check_code(&mut self, code: &str, module_name: &str)
        ensures
            final(self)@.rules == old(self)@.rules,
            final(self)@.state == old(self)@.state,
            final(self)@.errors == old(self)@.errors + domain_violations(
                old(self)@.rules,
                module_name@,
                code@,
            ) + risky_violations(old(self)@.rules, module_name@, code@),
    {
        let mut found = collect_violations(&self.rules, module_name, code);
        let ghost found_view = found@.map_values(|v: Violation| v@);
        self.errors.append(&mut found);
        proof {
            assert(self.errors@.map_values(|v: Violation| v@) =~= old(self)@.errors + found_view);
        }
    }

    /// The scan phase: one artifact became available. Skips it entirely when
    /// its name matches an exclude pattern, else scans it and records what
    /// was found; never fails by itself.
    pub fn on_artifact_available(&mut self, name: &str, content: &str)
        requires
            old(self)@.state != GateState::Finalized,
        ensures
            final(self)@.rules == old(self)@.rules,
            final(self)@.state == GateState::Scanning,
            final(self)@.errors == old(self)@.errors + scan_violations(
                old(self)@.rules,
                name@,
                content@,
            ),
    {
        self.state = GateState::Scanning;
        if self.should_exclude_module(name) {
            proof {
                assert(old(self)@.errors + scan_violations(old(self)@.rules, name@, content@)
                    =~= old(self)@.errors);
            }
        } else {
            self.check_code(content, name);
        }
    }

    /// The finalize phase: drains the store into the verdict. Succeeds
    /// exactly when no violation was recorded; fails otherwise with every
    /// message joined by newlines, in recording order. Terminal: no further
    /// event is accepted for this build.
    pub fn on_all_artifacts_processed(&mut self) -> (r: Result<(), String>)
        requires
            old(self)@.state != GateState::Finalized,
        ensures
            final(self)@.rules == old(self)@.rules,
            final(self)@.errors == old(self)@.errors,
            final(self)@.state == GateState::Finalized,
            r is Ok <==> old(self)@.errors.len() == 0,
            r is Err ==> r->Err_0@ == joined_messages(old(self)@.errors),
    {
        self.state = GateState::Finalized;
        if self.errors.len() == 0 {
            proof {
                assert(self@.errors =~= old(self)@.errors);
                assert(self@.errors.len() == 0);
            }
            Ok(())
        } else {
            Err(join_messages(&self.errors))
        }
    }
}

} // verus!

//! The violation scanner: domain extraction, allow-list matching, and
//! risky-pattern checks over one named artifact.
//!
//! Scanning one artifact yields, in order: one violation per distinct
//! unallowed domain found in the text (extraction order, duplicates within
//! the artifact collapsed), then one violation per configured risky pattern
//! that matches anywhere in the text (configuration order, one violation per
//! pattern no matter how often it matches). An artifact whose name matches an
//! exclude pattern yields nothing at all.

use vstd::prelude::*;

use crate::matching::{pattern_find_all, pattern_is_match, regex_compiles, regex_found, regex_matches};
use crate::report::{domain_message, risky_message, Violation, ViolationView};
use crate::rules::{RuleSet, RuleSetView};
use crate::seqs::lemma_filter_take_step;

verus! {

/// Whether `pattern` is a valid pattern that matches somewhere in `text`.
/// A malformed pattern matches nothing.
pub open spec fn pattern_hits(pattern: Seq<char>, text: Seq<char>) -> bool {
    regex_compiles(pattern) && regex_matches(pattern, text)
}

/// The predicate of [`pattern_hits`] against a fixed text.
pub open spec fn hits_in(text: Seq<char>) -> spec_fn(Seq<char>) -> bool {
    |p: Seq<char>| pattern_hits(p, text)
}

/// Whether any pattern of `patterns` hits in `text`.
pub open spec fn any_hits(patterns: Seq<Seq<char>>, text: Seq<char>) -> bool {
    exists|i: int| 0 <= i < patterns.len() && pattern_hits(patterns[i], text)
}

/// The domains extracted from `text` by the domain pattern, in text order,
/// duplicates included. A malformed domain pattern extracts nothing.
pub open spec fn found_domains(pattern: Seq<char>, text: Seq<char>) -> Seq<Seq<char>> {
    if regex_compiles(pattern) {
        regex_found(pattern, text)
    } else {
        Seq::empty()
    }
}

/// `s` with every repeated element dropped, keeping the first occurrence of
/// each, in order.
pub open spec fn first_occurrences(s: Seq<Seq<char>>) -> Seq<Seq<char>>
    decreases s.len(),
{
    if s.len() == 0 {
        Seq::empty()
    } else {
        let rest = first_occurrences(s.drop_last());
        if rest.contains(s.last()) {
            rest
        } else {
            rest.push(s.last())
        }
    }
}

/// The predicate selecting the domains that no allow-list pattern matches.
pub open spec fn unallowed_by(allow: Seq<Seq<char>>) -> spec_fn(Seq<char>) -> bool {
    |d: Seq<char>| !any_hits(allow, d)
}

/// The distinct domains of `text` that the allow-list does not permit, in
/// extraction order.
pub open spec fn unallowed_domains(rules: RuleSetView, text: Seq<char>) -> Seq<Seq<char>> {
    first_occurrences(found_domains(rules.domain, text)).filter(unallowed_by(rules.allow))
}

/// The violation built for the unallowed domain `d` in the artifact `name`.
pub open spec fn domain_violation_in(name: Seq<char>) -> spec_fn(Seq<char>) -> ViolationView {
    |d: Seq<char>| ViolationView { artifact_name: name, message: domain_message(name, d) }
}

/// The violation built for the matching risky pattern `p` in the artifact
/// `name`.
pub open spec fn risky_violation_in(name: Seq<char>) -> spec_fn(Seq<char>) -> ViolationView {
    |p: Seq<char>| ViolationView { artifact_name: name, message: risky_message(name, p) }
}

/// The unallowed-domain violations of one artifact, in extraction order.
pub open spec fn domain_violations(rules: RuleSetView, name: Seq<char>, text: Seq<char>) -> Seq<
    ViolationView,
> {
    unallowed_domains(rules, text).map_values(domain_violation_in(name))
}

/// The risky-pattern violations of one artifact, in configuration order.
pub open spec fn risky_violations(rules: RuleSetView, name: Seq<char>, text: Seq<char>) -> Seq<
    ViolationView,
> {
    rules.risky.filter(hits_in(text)).map_values(risky_violation_in(name))
}

/// Everything one scan of the artifact `(name, text)` reports: nothing when
/// the name matches an exclude pattern, else all domain violations followed
/// by all risky-pattern violations.
pub open spec fn scan_violations(rules: RuleSetView, name: Seq<char>, text: Seq<char>) -> Seq<
    ViolationView,
> {
    if any_hits(rules.exclude, name) {
        Seq::empty()
    } else {
        domain_violations(rules, name, text) + risky_violations(rules, name, text)
    }
}

/// Whether any pattern of `patterns` matches somewhere in `text`; the
/// allow-list matcher and the exclude filter are both instances of this.
pub fn any_pattern_matches(patterns: &Vec<String>, text: &str) -> (r: bool)
    ensures
        r == any_hits(patterns.deep_view(), text@),
{
    let mut i: usize = 0;
    while i < patterns.len()
        invariant
            0 <= i <= patterns.len(),
            forall|j: int| 0 <= j < i ==> !pattern_hits(patterns.deep_view()[j], text@),
        decreases patterns.len() - i,
    {
        if pattern_is_match(patterns[i].as_str(), text) {
            assert(pattern_hits(patterns.deep_view()[i as int], text@));
            return true;
        }
        i += 1;
    }
    false
}

/// Whether `v` holds a string equal to `s`.
fn contains_string(v: &Vec<String>, s: &String) -> (r: bool)
    ensures
        r == v.deep_view().contains(s@),
{
    let mut i: usize = 0;
    while i < v.len()
        invariant
            0 <= i <= v.len(),
            forall|j: int| 0 <= j < i ==> v.deep_view()[j] != s@,
        decreases v.len() - i,
    {
        if v[i] == *s {
            assert(v.deep_view()[i as int] == s@);
            return true;
        }
        i += 1;
    }
    false
}

/// Drops repeated strings, keeping the first occurrence of each, in order.
fn dedup_strings(items: &Vec<String>) -> (r: Vec<String>)
    ensures
        r.deep_view() == first_occurrences(items.deep_view()),
{
    let mut out: Vec<String> = Vec::new();
    let mut i: usize = 0;
    while i < items.len()
        invariant
            0 <= i <= items.len(),
            out.deep_view() == first_occurrences(items.deep_view().take(i as int)),
        decreases items.len() - i,
    {
        let ghost out0 = out.deep_view();
        let seen = contains_string(&out, &items[i]);
        if !seen {
            out.push(items[i].clone());
        }
        proof {
            let all = items.deep_view();
            assert(all.take(i + 1).drop_last() =~= all.take(i as int));
            assert(all.take(i + 1).last() == all[i as int]);
            if seen {
                assert(out.deep_view() == first_occurrences(all.take(i + 1)));
            } else {
                assert(out.deep_view() =~= out0.push(all[i as int]));
            }
        }
        i += 1;
    }
    proof {
        assert(items.deep_view().take(items.deep_view().len() as int) =~= items.deep_view());
    }
    out
}

/// The distinct domains of `code` that the allow-list does not permit, in
/// extraction order: domain extraction, deduplication, then allow-list
/// matching.
pub fn find_unallowed_domains_in(rules: &RuleSet, code: &str) -> (r: Vec<String>)
    ensures
        r.deep_view() == unallowed_domains(rules@, code@),
{
    let found = pattern_find_all(rules.domain_regex.as_str(), code);
    proof {
        assert(found.deep_view() == found_domains(rules@.domain, code@));
    }
    let distinct = dedup_strings(&found);
    let ghost all = first_occurrences(found_domains(rules@.domain, code@));
    let ghost pred = unallowed_by(rules@.allow);
    let mut out: Vec<String> = Vec::new();
    let mut i: usize = 0;
    while i < distinct.len()
        invariant
            0 <= i <= distinct.len(),
            all == distinct.deep_view(),
            pred == unallowed_by(rules@.allow),
            rules@.allow == rules.allowed_domain_resources.deep_view(),
            out.deep_view() == all.take(i as int).filter(pred),
        decreases distinct.len() - i,
    {
        let ghost out0 = out.deep_view();
        let allowed = any_pattern_matches(&rules.allowed_domain_resources, distinct[i].as_str());
        if !allowed {
            out.push(distinct[i].clone());
        }
        proof {
            lemma_filter_take_step(all, pred, i as int);
            assert(pred(all[i as int]) == !allowed);
            if !allowed {
                assert(out.deep_view() =~= out0.push(all[i as int]));
            }
        }
        i += 1;
    }
    proof {
        assert(all.take(all.len() as int) =~= all);
    }
    out
}

/// The domain violations of one artifact followed by its risky-pattern
/// violations, with no exclusion applied.
pub fn collect_violations(rules: &RuleSet, name: &str, code: &str) -> (r: Vec<Violation>)
    ensures
        r@.map_values(|v: Violation| v@) == domain_violations(rules@, name@, code@)
            + risky_violations(rules@, name@, code@),
{
    let ghost dv = domain_violations(rules@, name@, code@);
    let ghost rv = risky_violations(rules@, name@, code@);
    let mut out: Vec<Violation> = Vec::new();
    let domains = find_unallowed_domains_in(rules, code);
    let mut i: usize = 0;
    proof {
        assert(out@.map_values(|v: Violation| v@) =~= dv.take(0));
    }
    while i < domains.len()
        invariant
            0 <= i <= domains.len(),
            dv == domain_violations(rules@, name@, code@),
            domains.deep_view() == unallowed_domains(rules@, code@),
            dv.len() == domains.deep_view().len(),
            out@.map_values(|v: Violation| v@) == dv.take(i as int),
        decreases domains.len() - i,
    {
        let ghost out0 = out@.map_values(|v: Violation| v@);
        let v = crate::report::make_domain_violation(name, domains[i].as_str());
        out.push(v);
        proof {
            assert(dv[i as int] == domain_violation_in(name@)(domains.deep_view()[i as int]));
            assert(out@.map_values(|v: Violation| v@) =~= out0.push(dv[i as int]));
            assert(out0.push(dv[i as int]) =~= dv.take(i + 1));
        }
        i += 1;
    }
    proof {
        assert(dv.take(dv.len() as int) =~= dv);
    }
    let ghost risky_all = rules@.risky;
    let ghost hits = hits_in(code@);
    let mut k: usize = 0;
    while k < rules.risky_string_check.len()
        invariant
            0 <= k <= rules.risky_string_check.len(),
            dv == domain_violations(rules@, name@, code@),
            rv == risky_violations(rules@, name@, code@),
            risky_all == rules.risky_string_check.deep_view(),
            risky_all == rules@.risky,
            hits == hits_in(code@),
            out@.map_values(|v: Violation| v@) == dv + risky_all.take(k as int).filter(
                hits,
            ).map_values(risky_violation_in(name@)),
        decreases rules.risky_string_check.len() - k,
    {
        let ghost out0 = out@.map_values(|v: Violation| v@);
        let pattern = rules.risky_string_check[k].clone();
        let matched = pattern_is_match(pattern.as_str(), code);
        if matched {
            let v = crate::report::make_risky_violation(name, pattern.as_str());
            out.push(v);
        }
        proof {
            lemma_filter_take_step(risky_all, hits, k as int);
            assert(hits(risky_all[k as int]) == matched);
            if matched {
                let ghost w = risky_violation_in(name@)(risky_all[k as int]);
                assert(out@.map_values(|v: Violation| v@) =~= out0.push(w));
                assert(risky_all.take(k + 1).filter(hits).map_values(risky_violation_in(name@))
                    =~= risky_all.take(k as int).filter(hits).map_values(
                    risky_violation_in(name@),
                ).push(w));
                assert(out0.push(w) =~= dv + risky_all.take(k + 1).filter(hits).map_values(
                    risky_violation_in(name@),
                ));
            }
        }
        k += 1;
    }
    proof {
        assert(risky_all.take(risky_all.len() as int) =~= risky_all);
        assert(rv == risky_all.filter(hits).map_values(risky_violation_in(name@)));
    }
    out
}

/// One scan of the artifact `(name, code)`: nothing when the name matches an
/// exclude pattern, else all its domain violations followed by all its
/// risky-pattern violations.
pub fn scan_artifact(rules: &RuleSet, name: &str, code: &str) -> (r: Vec<Violation>)
    ensures
        r@.map_values(|v: Violation| v@) == scan_violations(rules@, name@, code@),
{
    if any_pattern_matches(&rules.exclude_regexes, name) {
        let out: Vec<Violation> = Vec::new();
        proof {
            assert(out@.map_values(|v: Violation| v@) =~= Seq::<ViolationView>::empty());
        }
        out
    } else {
        collect_violations(rules, name, code)
    }
}

} // verus!

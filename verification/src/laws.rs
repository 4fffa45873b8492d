//! The guarantees the scanner gives, each proved once and for all: what a
//! scan reports of risky patterns and of extracted domains, what an excluded
//! artifact reports, what the final verdict's text looks like, and what a
//! malformed pattern can never do.

use vstd::prelude::*;

use crate::report::{domain_message, joined_messages, risky_message, ViolationView};
use crate::rules::RuleSetView;
use crate::scan::{
    any_hits, domain_violation_in, domain_violations, first_occurrences, found_domains, hits_in,
    pattern_hits, risky_violation_in, risky_violations, scan_violations, unallowed_by,
    unallowed_domains,
};
use crate::seqs::{lemma_filter_keeps_no_duplicates, lemma_filter_membership};

verus! {

/// Two domain messages for one artifact agree only on one domain.
proof fn lemma_domain_message_injective(name: Seq<char>, d1: Seq<char>, d2: Seq<char>)
    requires
        domain_message(name, d1) == domain_message(name, d2),
    ensures
        d1 == d2,
{
    let infix = " has unallowed domain resource: "@;
    let m1 = domain_message(name, d1);
    let m2 = domain_message(name, d2);
    assert(m1.len() == name.len() + infix.len() + d1.len());
    assert(d1.len() == d2.len());
    assert forall|i: int| 0 <= i < d1.len() implies d1[i] == d2[i] by {
        assert(m1[name.len() + infix.len() + i] == d1[i]);
        assert(m2[name.len() + infix.len() + i] == d2[i]);
    }
    assert(d1 =~= d2);
}

/// Two risky-pattern messages for one artifact agree only on one pattern.
proof fn lemma_risky_message_injective(name: Seq<char>, p1: Seq<char>, p2: Seq<char>)
    requires
        risky_message(name, p1) == risky_message(name, p2),
    ensures
        p1 == p2,
{
    let infix = " has risky string: "@;
    let m1 = risky_message(name, p1);
    let m2 = risky_message(name, p2);
    assert(m1.len() == name.len() + infix.len() + p1.len());
    assert(p1.len() == p2.len());
    assert forall|i: int| 0 <= i < p1.len() implies p1[i] == p2[i] by {
        assert(m1[name.len() + infix.len() + i] == p1[i]);
        assert(m2[name.len() + infix.len() + i] == p2[i]);
    }
    assert(p1 =~= p2);
}

/// A domain message is never a risky-pattern message for the same artifact:
/// the two fixed infixes differ right after the artifact name.
proof fn lemma_message_forms_differ(name: Seq<char>, d: Seq<char>, p: Seq<char>)
    ensures
        domain_message(name, d) != risky_message(name, p),
{
    let m1 = domain_message(name, d);
    let m2 = risky_message(name, p);
    if m1 == m2 {
        reveal_strlit(" has unallowed domain resource: ");
        reveal_strlit(" has risky string: ");
        let infix1 = " has unallowed domain resource: "@;
        let infix2 = " has risky string: "@;
        assert(infix1[5] == 'u');
        assert(infix2[5] == 'r');
        assert(m1[name.len() as int + 5] == infix1[5]);
        assert(m2[name.len() as int + 5] == infix2[5]);
        assert(false);
    }
}

/// Keeping first occurrences keeps exactly the elements of the original.
proof fn lemma_first_occurrences_membership(s: Seq<Seq<char>>, x: Seq<char>)
    ensures
        first_occurrences(s).contains(x) <==> s.contains(x),
    decreases s.len(),
{
    if s.len() > 0 {
        let prefix = s.drop_last();
        lemma_first_occurrences_membership(prefix, x);
        let rest = first_occurrences(prefix);
        if first_occurrences(s).contains(x) {
            if rest.contains(s.last()) {
                assert(rest.contains(x));
                let k = choose|k: int| 0 <= k < prefix.len() && prefix[k] == x;
                assert(s[k] == x);
            } else {
                let out = rest.push(s.last());
                let j = choose|j: int| 0 <= j < out.len() && out[j] == x;
                if j == out.len() - 1 {
                    assert(s[s.len() - 1] == x);
                } else {
                    assert(rest.contains(x));
                    let k = choose|k: int| 0 <= k < prefix.len() && prefix[k] == x;
                    assert(s[k] == x);
                }
            }
        }
        if s.contains(x) {
            let i = choose|i: int| 0 <= i < s.len() && s[i] == x;
            if i < s.len() - 1 {
                assert(prefix[i] == x);
                assert(rest.contains(x));
                if rest.contains(s.last()) {
                } else {
                    let out = rest.push(s.last());
                    let j = choose|j: int| 0 <= j < rest.len() && rest[j] == x;
                    assert(out[j] == x);
                }
            } else {
                assert(s.last() == x);
                if rest.contains(s.last()) {
                } else {
                    let out = rest.push(s.last());
                    assert(out[out.len() - 1] == x);
                }
            }
        }
    }
}

/// Keeping first occurrences leaves no duplicates.
proof fn lemma_first_occurrences_no_duplicates(s: Seq<Seq<char>>)
    ensures
        first_occurrences(s).no_duplicates(),
    decreases s.len(),
{
    if s.len() > 0 {
        let prefix = s.drop_last();
        lemma_first_occurrences_no_duplicates(prefix);
        let rest = first_occurrences(prefix);
        if !rest.contains(s.last()) {
            let out = rest.push(s.last());
            assert forall|i: int, j: int|
                0 <= i < out.len() && 0 <= j < out.len() && i != j implies out[i] != out[j] by {
                if i < out.len() - 1 && j < out.len() - 1 {
                    assert(out[i] == rest[i]);
                    assert(out[j] == rest[j]);
                } else if j == out.len() - 1 {
                    assert(out[i] == rest[i]);
                    assert(rest.contains(rest[i]));
                } else {
                    assert(out[j] == rest[j]);
                    assert(rest.contains(rest[j]));
                }
            }
        }
    }
}

/// The distinct unallowed domains of one scan: no duplicates, and exactly
/// the extracted domains that the allow-list does not permit.
proof fn lemma_unallowed_domains_shape(rules: RuleSetView, text: Seq<char>)
    ensures
        unallowed_domains(rules, text).no_duplicates(),
        forall|d: Seq<char>|
            #[trigger] unallowed_domains(rules, text).contains(d) <==> (found_domains(
                rules.domain,
                text,
            ).contains(d) && !any_hits(rules.allow, d)),
{
    let extracted = found_domains(rules.domain, text);
    let distinct = first_occurrences(extracted);
    lemma_first_occurrences_no_duplicates(extracted);
    lemma_filter_keeps_no_duplicates(distinct, unallowed_by(rules.allow));
    assert forall|d: Seq<char>| #[trigger]
        unallowed_domains(rules, text).contains(d) <==> (extracted.contains(d) && !any_hits(
            rules.allow,
            d,
        )) by {
        lemma_first_occurrences_membership(extracted, d);
        lemma_filter_membership(distinct, unallowed_by(rules.allow), d);
    }
}

/// For every configured risky pattern that matches somewhere in the text of
/// a non-excluded artifact, the scan reports exactly one violation carrying
/// that pattern's message — no matter how often the pattern matches.
pub proof fn lemma_risky_pattern_reported_once(
    rules: RuleSetView,
    name: Seq<char>,
    text: Seq<char>,
    i: int,
)
    requires
        rules.risky.no_duplicates(),
        0 <= i < rules.risky.len(),
        pattern_hits(rules.risky[i], text),
        !any_hits(rules.exclude, name),
    ensures
        ({
            let report = scan_violations(rules, name, text);
            let msg = risky_message(name, rules.risky[i]);
            &&& exists|k: int| 0 <= k < report.len() && (#[trigger] report[k]).message == msg
            &&& forall|k1: int, k2: int|
                0 <= k1 < report.len() && 0 <= k2 < report.len() && (#[trigger] report[k1]).message
                    == msg && (#[trigger] report[k2]).message == msg ==> k1 == k2
        }),
{
    let report = scan_violations(rules, name, text);
    let msg = risky_message(name, rules.risky[i]);
    let dv = domain_violations(rules, name, text);
    let rv = risky_violations(rules, name, text);
    let ud = unallowed_domains(rules, text);
    let hits = hits_in(text);
    let fr = rules.risky.filter(hits);
    assert(report == dv + rv);
    assert(rules.risky.contains(rules.risky[i]));
    assert(hits(rules.risky[i]));
    lemma_filter_membership(rules.risky, hits, rules.risky[i]);
    let j = choose|j: int| 0 <= j < fr.len() && fr[j] == rules.risky[i];
    assert(rv[j] == risky_violation_in(name)(fr[j]));
    assert(report[dv.len() + j].message == msg);
    lemma_filter_keeps_no_duplicates(rules.risky, hits);
    assert forall|k1: int, k2: int|
        0 <= k1 < report.len() && 0 <= k2 < report.len() && (#[trigger] report[k1]).message == msg
            && (#[trigger] report[k2]).message == msg implies k1 == k2 by {
        if k1 < dv.len() {
            assert(report[k1] == domain_violation_in(name)(ud[k1]));
            lemma_message_forms_differ(name, ud[k1], rules.risky[i]);
        }
        if k2 < dv.len() {
            assert(report[k2] == domain_violation_in(name)(ud[k2]));
            lemma_message_forms_differ(name, ud[k2], rules.risky[i]);
        }
        assert(report[k1] == rv[k1 - dv.len()]);
        assert(report[k2] == rv[k2 - dv.len()]);
        lemma_risky_message_injective(name, fr[k1 - dv.len()], rules.risky[i]);
        lemma_risky_message_injective(name, fr[k2 - dv.len()], rules.risky[i]);
        assert(fr[k1 - dv.len()] == fr[k2 - dv.len()]);
    }
}

/// For every domain extracted from a non-excluded artifact's text that no
/// allow-list pattern permits, the scan reports exactly one violation for
/// that domain, however often it occurs in the text.
pub proof fn lemma_unallowed_domain_reported_once(
    rules: RuleSetView,
    name: Seq<char>,
    text: Seq<char>,
    d: Seq<char>,
)
    requires
        found_domains(rules.domain, text).contains(d),
        !any_hits(rules.allow, d),
        !any_hits(rules.exclude, name),
    ensures
        ({
            let report = scan_violations(rules, name, text);
            let msg = domain_message(name, d);
            &&& exists|k: int| 0 <= k < report.len() && (#[trigger] report[k]).message == msg
            &&& forall|k1: int, k2: int|
                0 <= k1 < report.len() && 0 <= k2 < report.len() && (#[trigger] report[k1]).message
                    == msg && (#[trigger] report[k2]).message == msg ==> k1 == k2
        }),
{
    let report = scan_violations(rules, name, text);
    let msg = domain_message(name, d);
    let dv = domain_violations(rules, name, text);
    let rv = risky_violations(rules, name, text);
    let ud = unallowed_domains(rules, text);
    let hits = hits_in(text);
    let fr = rules.risky.filter(hits);
    assert(report == dv + rv);
    lemma_unallowed_domains_shape(rules, text);
    assert(ud.contains(d));
    let j = choose|j: int| 0 <= j < ud.len() && ud[j] == d;
    assert(dv[j] == domain_violation_in(name)(ud[j]));
    assert(report[j].message == msg);
    assert forall|k1: int, k2: int|
        0 <= k1 < report.len() && 0 <= k2 < report.len() && (#[trigger] report[k1]).message == msg
            && (#[trigger] report[k2]).message == msg implies k1 == k2 by {
        if k1 >= dv.len() {
            assert(report[k1] == risky_violation_in(name)(fr[k1 - dv.len()]));
            lemma_message_forms_differ(name, d, fr[k1 - dv.len()]);
        }
        if k2 >= dv.len() {
            assert(report[k2] == risky_violation_in(name)(fr[k2 - dv.len()]));
            lemma_message_forms_differ(name, d, fr[k2 - dv.len()]);
        }
        assert(report[k1] == domain_violation_in(name)(ud[k1]));
        assert(report[k2] == domain_violation_in(name)(ud[k2]));
        lemma_domain_message_injective(name, ud[k1], d);
        lemma_domain_message_injective(name, ud[k2], d);
    }
}

/// A domain that some allow-list pattern permits is never reported.
pub proof fn lemma_allowed_domain_not_reported(
    rules: RuleSetView,
    name: Seq<char>,
    text: Seq<char>,
    d: Seq<char>,
)
    requires
        any_hits(rules.allow, d),
    ensures
        forall|k: int|
            0 <= k < scan_violations(rules, name, text).len() ==> (#[trigger] scan_violations(
                rules,
                name,
                text,
            )[k]).message != domain_message(name, d),
{
    let report = scan_violations(rules, name, text);
    if !any_hits(rules.exclude, name) {
        let dv = domain_violations(rules, name, text);
        let rv = risky_violations(rules, name, text);
        let ud = unallowed_domains(rules, text);
        let hits = hits_in(text);
        let fr = rules.risky.filter(hits);
        assert(report == dv + rv);
        lemma_unallowed_domains_shape(rules, text);
        assert forall|k: int| 0 <= k < report.len() implies (#[trigger] report[k]).message
            != domain_message(name, d) by {
            if k < dv.len() {
                assert(report[k] == domain_violation_in(name)(ud[k]));
                if report[k].message == domain_message(name, d) {
                    lemma_domain_message_injective(name, ud[k], d);
                    assert(ud.contains(ud[k]));
                    assert(!any_hits(rules.allow, ud[k]));
                }
            } else {
                assert(report[k] == risky_violation_in(name)(fr[k - dv.len()]));
                lemma_message_forms_differ(name, d, fr[k - dv.len()]);
            }
        }
    }
}

/// An artifact whose name matches an exclude pattern yields no violation at
/// all, whatever its content.
pub proof fn lemma_excluded_artifact_reports_nothing(
    rules: RuleSetView,
    name: Seq<char>,
    text: Seq<char>,
)
    requires
        any_hits(rules.exclude, name),
    ensures
        scan_violations(rules, name, text) == Seq::<ViolationView>::empty(),
{
}

/// A pattern string that does not compile never produces a violation: its
/// message never appears in any scan's report.
pub proof fn lemma_malformed_pattern_never_fires(
    rules: RuleSetView,
    name: Seq<char>,
    text: Seq<char>,
    pattern: Seq<char>,
)
    requires
        !crate::matching::regex_compiles(pattern),
    ensures
        forall|k: int|
            0 <= k < scan_violations(rules, name, text).len() ==> (#[trigger] scan_violations(
                rules,
                name,
                text,
            )[k]).message != risky_message(name, pattern),
{
    let report = scan_violations(rules, name, text);
    if !any_hits(rules.exclude, name) {
        let dv = domain_violations(rules, name, text);
        let rv = risky_violations(rules, name, text);
        let ud = unallowed_domains(rules, text);
        let hits = hits_in(text);
        let fr = rules.risky.filter(hits);
        assert(report == dv + rv);
        assert forall|k: int| 0 <= k < report.len() implies (#[trigger] report[k]).message
            != risky_message(name, pattern) by {
            if k < dv.len() {
                assert(report[k] == domain_violation_in(name)(ud[k]));
                lemma_message_forms_differ(name, ud[k], pattern);
            } else {
                assert(report[k] == risky_violation_in(name)(fr[k - dv.len()]));
                if report[k].message == risky_message(name, pattern) {
                    lemma_risky_message_injective(name, fr[k - dv.len()], pattern);
                    rules.risky.lemma_filter_pred(hits, k - dv.len());
                    assert(hits(fr[k - dv.len()]));
                }
            }
        }
    }
}

/// How many newline characters a text holds.
pub open spec fn newline_count(s: Seq<char>) -> int
    decreases s.len(),
{
    if s.len() == 0 {
        0
    } else {
        newline_count(s.drop_last()) + if s.last() == '\n' {
            1int
        } else {
            0int
        }
    }
}

proof fn lemma_newline_count_add(a: Seq<char>, b: Seq<char>)
    ensures
        newline_count(a + b) == newline_count(a) + newline_count(b),
    decreases b.len(),
{
    if b.len() == 0 {
        assert(a + b =~= a);
    } else {
        assert((a + b).drop_last() =~= a + b.drop_last());
        assert((a + b).last() == b.last());
        lemma_newline_count_add(a, b.drop_last());
    }
}

/// A failed verdict built from violations whose messages hold no newline has
/// exactly one line per violation: its newline count is the violation count
/// less one.
pub proof fn lemma_verdict_line_count(violations: Seq<ViolationView>)
    requires
        violations.len() >= 1,
        forall|i: int|
            0 <= i < violations.len() ==> newline_count((#[trigger] violations[i]).message) == 0,
    ensures
        newline_count(joined_messages(violations)) == violations.len() - 1,
    decreases violations.len(),
{
    reveal_strlit("\n");
    if violations.len() == 1 {
        assert(joined_messages(violations) == violations[0].message);
    } else {
        let prefix = violations.drop_last();
        lemma_verdict_line_count(prefix);
        let sep = "\n"@;
        assert(sep.len() == 1);
        assert(sep.drop_last() =~= Seq::<char>::empty());
        assert(newline_count(Seq::<char>::empty()) == 0);
        assert(sep.last() == '\n');
        assert(newline_count(sep) == 1);
        assert(joined_messages(violations) == joined_messages(prefix) + sep
            + violations.last().message);
        lemma_newline_count_add(joined_messages(prefix), sep);
        lemma_newline_count_add(joined_messages(prefix) + sep, violations.last().message);
        assert(newline_count(violations.last().message) == 0);
    }
}

} // verus!

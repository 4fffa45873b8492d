//! The rule compiler: configuration strings become a validated rule set.
//!
//! Each pattern string is checked independently; one that does not compile is
//! dropped from its list with no error surfaced (best-effort compilation, a
//! deliberate policy). The domain-detection pattern falls back to a built-in
//! default when absent or malformed.

use vstd::prelude::*;

use crate::matching::{pattern_compiles, regex_compiles};
use crate::RspackCodeCheckerPluginOptions;

verus! {

/// The compiled, immutable rule set governing one checker instance.
pub struct RuleSet {
    /// Patterns whose presence anywhere in an artifact's text is a violation.
    pub risky_string_check: Vec<String>,
    /// Patterns naming the permitted domains.
    pub allowed_domain_resources: Vec<String>,
    /// The pattern used to recognise domain-shaped substrings.
    pub domain_regex: String,
    /// Patterns naming artifacts to skip entirely.
    pub exclude_regexes: Vec<String>,
}

/// The mathematical content of a [`RuleSet`].
pub struct RuleSetView {
    pub risky: Seq<Seq<char>>,
    pub allow: Seq<Seq<char>>,
    pub domain: Seq<char>,
    pub exclude: Seq<Seq<char>>,
}

impl View for RuleSet {
    type V = RuleSetView;

    open spec fn view(&self) -> RuleSetView {
        RuleSetView {
            risky: self.risky_string_check.deep_view(),
            allow: self.allowed_domain_resources.deep_view(),
            domain: self.domain_regex@,
            exclude: self.exclude_regexes.deep_view(),
        }
    }
}

/// The built-in domain-detection pattern: a sequence of DNS labels separated
/// by dots, each label 1 to 63 alphanumerics or hyphens neither starting nor
/// ending with a hyphen, standing in network-resource position (right after
/// `//`, as in a URL); the domain itself is the capture group.
pub open spec fn spec_default_domain_pattern() -> Seq<char> {
    "//((?:[a-zA-Z0-9](?:[a-zA-Z0-9-]{0,61}[a-zA-Z0-9])?\\.)+[a-zA-Z0-9](?:[a-zA-Z0-9-]{0,61}[a-zA-Z0-9])?)"@
}

/// The built-in domain-detection pattern, as configured when the options
/// supply none of their own.
pub fn default_domain_pattern() -> (r: &'static str)
    ensures
        r@ == spec_default_domain_pattern(),
{
    "//((?:[a-zA-Z0-9](?:[a-zA-Z0-9-]{0,61}[a-zA-Z0-9])?\\.)+[a-zA-Z0-9](?:[a-zA-Z0-9-]{0,61}[a-zA-Z0-9])?)"
}

/// The predicate a pattern string must meet to stay in a compiled list:
/// being a valid pattern.
pub open spec fn valid_pattern() -> spec_fn(Seq<char>) -> bool {
    |p: Seq<char>| regex_compiles(p)
}

/// The patterns of `patterns` that compile, in order; the rest are dropped.
pub fn compile_pattern_list(patterns: &Vec<String>) -> (r: Vec<String>)
    ensures
        r.deep_view() == patterns.deep_view().filter(valid_pattern()),
{
    let ghost pred: spec_fn(Seq<char>) -> bool = valid_pattern();
    let mut out: Vec<String> = Vec::new();
    let mut i: usize = 0;
    while i < patterns.len()
        invariant
            0 <= i <= patterns.len(),
            pred == valid_pattern(),
            out.deep_view() == patterns.deep_view().take(i as int).filter(pred),
        decreases patterns.len() - i,
    {
        let ghost prefix = patterns.deep_view().take(i as int);
        let ghost p_i = patterns.deep_view()[i as int];
        let ghost out0 = out.deep_view();
        let compiles = pattern_compiles(patterns[i].as_str());
        if compiles {
            out.push(patterns[i].clone());
        }
        proof {
            reveal_with_fuel(Seq::filter, 3);
            let single = seq![p_i];
            assert(single.drop_last() =~= Seq::<Seq<char>>::empty());
            assert(single.filter(pred) == (if pred(p_i) {
                single
            } else {
                Seq::<Seq<char>>::empty()
            }));
            Seq::filter_distributes_over_add(prefix, single, pred);
            assert(patterns.deep_view().take(i + 1) =~= prefix + single);
            assert(pred(p_i) == compiles);
            if compiles {
                assert(out.deep_view() =~= out0.push(p_i));
                assert(out0.push(p_i) =~= prefix.filter(pred) + single.filter(pred));
            } else {
                assert(out.deep_view() =~= prefix.filter(pred) + single.filter(pred));
            }
            assert(out.deep_view() == patterns.deep_view().take(i + 1).filter(pred));
        }
        i += 1;
    }
    proof {
        assert(patterns.deep_view().take(patterns.deep_view().len() as int) =~= patterns.deep_view());
    }
    out
}

impl RuleSet {
    /// Compiles raw configuration into a rule set. Malformed pattern strings
    /// are dropped from their lists; a malformed or absent domain pattern
    /// falls back to the built-in default.
    pub fn from_options(options: &RspackCodeCheckerPluginOptions) -> (r: RuleSet)
        ensures
            r@.risky == options.risky_string_check.deep_view().filter(valid_pattern()),
            r@.allow == options.allowed_domain_resources.deep_view().filter(valid_pattern()),
            r@.domain == (match options.domain_regex {
                Some(ref p) => if regex_compiles(p@) {
                    p@
                } else {
                    spec_default_domain_pattern()
                },
                None => spec_default_domain_pattern(),
            }),
            r@.exclude == (match options.exclude_modules {
                Some(ref pats) => pats.deep_view().filter(valid_pattern()),
                None => Seq::<Seq<char>>::empty(),
            }),
    {
        let risky_string_check = compile_pattern_list(&options.risky_string_check);
        let allowed_domain_resources = compile_pattern_list(&options.allowed_domain_resources);
        let domain_regex = match options.domain_regex {
            Some(ref p) => {
                if pattern_compiles(p.as_str()) {
                    p.clone()
                } else {
                    String::from_str(default_domain_pattern())
                }
            },
            None => String::from_str(default_domain_pattern()),
        };
        let exclude_regexes = match options.exclude_modules {
            Some(ref pats) => compile_pattern_list(pats),
            None => Vec::new(),
        };
        proof {
            if options.exclude_modules is None {
                assert(exclude_regexes.deep_view() =~= Seq::<Seq<char>>::empty());
            }
        }
        RuleSet { risky_string_check, allowed_domain_resources, domain_regex, exclude_regexes }
    }
}

} // verus!

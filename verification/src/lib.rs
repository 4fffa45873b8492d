//! Build-output compliance scanner: applies compiled pattern rules over named
//! text artifacts, extracts outbound domains and checks them against an
//! allow-list, and aggregates violations into a single pass/fail verdict.

pub mod checker;
pub mod laws;
pub mod matching;
pub mod report;
pub mod rules;
pub mod scan;
pub mod seqs;

use vstd::prelude::*;

verus! {

/// Raw configuration for the checker: pattern strings as the caller supplies
/// them, before compilation. Malformed patterns are dropped at compile time,
/// never reported.
pub struct RspackCodeCheckerPluginOptions {
    /// Patterns whose presence anywhere in an artifact's text is a violation.
    pub risky_string_check: Vec<String>,
    /// Patterns naming the permitted domains; a domain matching any of them
    /// is allowed.
    pub allowed_domain_resources: Vec<String>,
    /// Pattern used to recognise domain-shaped substrings; a built-in default
    /// applies when absent.
    pub domain_regex: Option<String>,
    /// Patterns naming artifacts to skip entirely.
    pub exclude_modules: Option<Vec<String>>,
}

} // verus!

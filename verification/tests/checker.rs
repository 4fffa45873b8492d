use code_checker::checker::RspackCodeCheckerPlugin;
use code_checker::rules::RuleSet;
use code_checker::RspackCodeCheckerPluginOptions;

fn options(
    risky: &[&str],
    allow: &[&str],
    domain: Option<&str>,
    exclude: Option<&[&str]>,
) -> RspackCodeCheckerPluginOptions {
    RspackCodeCheckerPluginOptions {
        risky_string_check: risky.iter().map(|s| s.to_string()).collect(),
        allowed_domain_resources: allow.iter().map(|s| s.to_string()).collect(),
        domain_regex: domain.map(|s| s.to_string()),
        exclude_modules: exclude.map(|e| e.iter().map(|s| s.to_string()).collect()),
    }
}

#[test]
fn risky_and_domain_violations_reported() {
    let opts = options(&["eval\\("], &["^cdn\\.example\\.com$"], None, None);
    let mut checker = RspackCodeCheckerPlugin::new(&opts);
    checker.on_artifact_available("bundle.js", "fetch('https://evil.tld/x'); eval(x)");
    let verdict = checker.on_all_artifacts_processed();
    let message = verdict.expect_err("two violations expected");
    assert_eq!(
        message,
        "bundle.js has unallowed domain resource: evil.tld\nbundle.js has risky string: eval\\("
    );
}

#[test]
fn allowed_domain_produces_no_violation() {
    let opts = options(&["eval\\("], &["^cdn\\.example\\.com$"], None, None);
    let mut checker = RspackCodeCheckerPlugin::new(&opts);
    checker.on_artifact_available("safe.js", "fetch('https://cdn.example.com/lib.js')");
    assert!(checker.on_all_artifacts_processed().is_ok());
}

#[test]
fn risky_pattern_reported_once_despite_many_matches() {
    let opts = options(&["eval\\("], &[], None, None);
    let mut checker = RspackCodeCheckerPlugin::new(&opts);
    checker.on_artifact_available("a.js", "eval(1); eval(2); eval(3)");
    let message = checker.on_all_artifacts_processed().expect_err("one violation expected");
    assert_eq!(message, "a.js has risky string: eval\\(");
}

#[test]
fn duplicate_domain_occurrences_collapse_to_one_violation() {
    let opts = options(&[], &[], None, None);
    let mut checker = RspackCodeCheckerPlugin::new(&opts);
    checker.on_artifact_available("a.js", "x('//evil.tld/a'); y('//evil.tld/b')");
    let message = checker.on_all_artifacts_processed().expect_err("one violation expected");
    assert_eq!(message, "a.js has unallowed domain resource: evil.tld");
}

#[test]
fn distinct_domains_each_reported_in_extraction_order() {
    let opts = options(&[], &[], None, None);
    let mut checker = RspackCodeCheckerPlugin::new(&opts);
    checker.on_artifact_available("a.js", "load('//one.example/a'); load('//two.example/b')");
    let message = checker.on_all_artifacts_processed().expect_err("two violations expected");
    assert_eq!(
        message,
        "a.js has unallowed domain resource: one.example\na.js has unallowed domain resource: two.example"
    );
}

#[test]
fn excluded_artifact_produces_no_violations() {
    let opts = options(&["eval\\("], &[], None, Some(&["^vendor/"]));
    let mut checker = RspackCodeCheckerPlugin::new(&opts);
    checker.on_artifact_available("vendor/lib.js", "eval(x); fetch('//evil.tld/x')");
    assert!(checker.on_all_artifacts_processed().is_ok());
}

#[test]
fn non_excluded_artifact_still_scanned_under_exclude_config() {
    let opts = options(&["eval\\("], &[], None, Some(&["^vendor/"]));
    let mut checker = RspackCodeCheckerPlugin::new(&opts);
    checker.on_artifact_available("app/main.js", "eval(x)");
    let message = checker.on_all_artifacts_processed().expect_err("one violation expected");
    assert_eq!(message, "app/main.js has risky string: eval\\(");
}

#[test]
fn finalize_without_violations_succeeds() {
    let opts = options(&["eval\\("], &[], None, None);
    let mut checker = RspackCodeCheckerPlugin::new(&opts);
    checker.on_artifact_available("clean.js", "console.log('fine')");
    assert!(checker.on_all_artifacts_processed().is_ok());
}

#[test]
fn finalize_message_has_one_line_per_violation() {
    let opts = options(&["eval\\(", "innerHTML"], &[], None, None);
    let mut checker = RspackCodeCheckerPlugin::new(&opts);
    checker.on_artifact_available("a.js", "eval(x); el.innerHTML = y; go('//bad.tld/z')");
    let message = checker.on_all_artifacts_processed().expect_err("three violations expected");
    assert_eq!(message.lines().count(), 3);
    assert_eq!(message.matches('\n').count(), 2);
}

#[test]
fn violations_accumulate_across_artifacts() {
    let opts = options(&["eval\\("], &[], None, None);
    let mut checker = RspackCodeCheckerPlugin::new(&opts);
    checker.on_artifact_available("a.js", "eval(x)");
    checker.on_artifact_available("b.js", "eval(y)");
    let message = checker.on_all_artifacts_processed().expect_err("two violations expected");
    assert_eq!(
        message,
        "a.js has risky string: eval\\(\nb.js has risky string: eval\\("
    );
}

#[test]
fn malformed_patterns_are_dropped_at_construction() {
    let opts = options(&["(", "eval\\("], &["[", "^ok\\.example$"], Some("("), Some(&["[", "^skip/"]));
    let rules = RuleSet::from_options(&opts);
    assert_eq!(rules.risky_string_check, vec!["eval\\(".to_string()]);
    assert_eq!(rules.allowed_domain_resources, vec!["^ok\\.example$".to_string()]);
    assert_eq!(rules.exclude_regexes, vec!["^skip/".to_string()]);
    assert_eq!(rules.domain_regex, code_checker::rules::default_domain_pattern());
}

#[test]
fn malformed_patterns_never_match_and_never_crash_scanning() {
    let opts = options(&["(", "eval\\("], &["["], Some("("), None);
    let mut checker = RspackCodeCheckerPlugin::new(&opts);
    checker.on_artifact_available("a.js", "eval(x); fetch('//host.tld/y')");
    let message = checker.on_all_artifacts_processed().expect_err("violations expected");
    assert_eq!(
        message,
        "a.js has unallowed domain resource: host.tld\na.js has risky string: eval\\("
    );
}

#[test]
fn custom_domain_pattern_is_used_for_extraction() {
    let opts = options(&[], &["^good\\.com$"], Some("[a-z]+\\.com"), None);
    let mut checker = RspackCodeCheckerPlugin::new(&opts);
    checker.on_artifact_available("a.js", "good.com bad.com");
    let message = checker.on_all_artifacts_processed().expect_err("one violation expected");
    assert_eq!(message, "a.js has unallowed domain resource: bad.com");
}

#[test]
fn find_unallowed_domains_dedups_and_filters() {
    let opts = options(&[], &["^cdn\\."], None, None);
    let checker = RspackCodeCheckerPlugin::new(&opts);
    let found = checker.find_unallowed_domains(
        "a('//cdn.site.io/x'); b('//raw.site.io/y'); c('//raw.site.io/z'); d('//last.io')",
    );
    assert_eq!(found, vec!["raw.site.io".to_string(), "last.io".to_string()]);
}

#[test]
fn should_exclude_module_matches_any_exclude_pattern() {
    let opts = options(&[], &[], None, Some(&["\\.min\\.js$", "^third_party/"]));
    let checker = RspackCodeCheckerPlugin::new(&opts);
    assert!(checker.should_exclude_module("lib/jquery.min.js"));
    assert!(checker.should_exclude_module("third_party/a.js"));
    assert!(!checker.should_exclude_module("src/app.js"));
}

#[test]
fn empty_allow_list_rejects_every_extracted_domain() {
    let opts = options(&[], &[], None, None);
    let mut checker = RspackCodeCheckerPlugin::new(&opts);
    checker.on_artifact_available("a.js", "fetch('https://any.host.example/x')");
    let message = checker.on_all_artifacts_processed().expect_err("one violation expected");
    assert_eq!(message, "a.js has unallowed domain resource: any.host.example");
}

#[test]
fn empty_configuration_scans_clean_text_quietly() {
    let opts = options(&[], &[], None, None);
    let mut checker = RspackCodeCheckerPlugin::new(&opts);
    checker.on_artifact_available("a.js", "no urls and no risky strings here");
    assert!(checker.on_all_artifacts_processed().is_ok());
}

#[test]
fn finalize_with_no_artifacts_succeeds() {
    let opts = options(&["eval\\("], &[], None, None);
    let mut checker = RspackCodeCheckerPlugin::new(&opts);
    assert!(checker.on_all_artifacts_processed().is_ok());
}

#[test]
fn checker_reports_its_name() {
    let opts = options(&[], &[], None, None);
    let checker = RspackCodeCheckerPlugin::new(&opts);
    assert_eq!(checker.name(), "RspackCodeCheckerPlugin");
}

#[test]
fn domain_order_precedes_risky_order_in_report() {
    let opts = options(&["alpha", "beta"], &[], None, None);
    let mut checker = RspackCodeCheckerPlugin::new(&opts);
    checker.on_artifact_available("a.js", "beta alpha go('//z.tld/x')");
    let message = checker.on_all_artifacts_processed().expect_err("three violations expected");
    assert_eq!(
        message,
        "a.js has unallowed domain resource: z.tld\na.js has risky string: alpha\na.js has risky string: beta"
    );
}

#[test]
fn check_code_records_without_exclusion() {
    let opts = options(&["eval\\("], &[], None, Some(&["^a\\.js$"]));
    let mut checker = RspackCodeCheckerPlugin::new(&opts);
    // check_code applies no exclude filter; only the artifact-available path does
    checker.check_code("eval(x)", "a.js");
    let message = checker.on_all_artifacts_processed().expect_err("one violation expected");
    assert_eq!(message, "a.js has risky string: eval\\(");
}

#[test]
fn add_error_feeds_the_final_message() {
    let opts = options(&[], &[], None, None);
    let mut checker = RspackCodeCheckerPlugin::new(&opts);
    checker.add_error(code_checker::report::Violation {
        artifact_name: "a.js".to_string(),
        message: "a.js broke a house rule".to_string(),
    });
    let message = checker.on_all_artifacts_processed().expect_err("one violation expected");
    assert_eq!(message, "a.js broke a house rule");
}

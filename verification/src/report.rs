//! Violation records and the texts built from them.
//!
//! A violation ties one offending finding to the artifact it was found in.
//! Its message has one of two fixed shapes, one for an unallowed domain and
//! one for a risky pattern; the final build-failing error is every message
//! joined by newlines, in the order the violations were recorded.

use vstd::prelude::*;

verus! {

/// One reported instance of non-compliant content in a named artifact.
#[derive(Debug)]
pub struct Violation {
    pub artifact_name: String,
    pub message: String,
}

/// The mathematical content of a [`Violation`].
pub struct ViolationView {
    pub artifact_name: Seq<char>,
    pub message: Seq<char>,
}

impl View for Violation {
    type V = ViolationView;

    open spec fn view(&self) -> ViolationView {
        ViolationView { artifact_name: self.artifact_name@, message: self.message@ }
    }
}

/// The message reported when `domain` was extracted from the artifact named
/// `name` and matched no allow-list pattern.
pub open spec fn domain_message(name: Seq<char>, domain: Seq<char>) -> Seq<char> {
    name + " has unallowed domain resource: "@ + domain
}

/// The message reported when the risky pattern `pattern` matched somewhere in
/// the text of the artifact named `name`.
pub open spec fn risky_message(name: Seq<char>, pattern: Seq<char>) -> Seq<char> {
    name + " has risky string: "@ + pattern
}

/// Builds the unallowed-domain violation for `domain` in the artifact `name`.
pub fn make_domain_violation(name: &str, domain: &str) -> (r: Violation)
    ensures
        r@.artifact_name == name@,
        r@.message == domain_message(name@, domain@),
{
    let mut message = String::from_str(name);
    message.append(" has unallowed domain resource: ");
    message.append(domain);
    Violation { artifact_name: String::from_str(name), message }
}

/// Builds the risky-pattern violation for `pattern` in the artifact `name`.
pub fn make_risky_violation(name: &str, pattern: &str) -> (r: Violation)
    ensures
        r@.artifact_name == name@,
        r@.message == risky_message(name@, pattern@),
{
    let mut message = String::from_str(name);
    message.append(" has risky string: ");
    message.append(pattern);
    Violation { artifact_name: String::from_str(name), message }
}

/// The messages of `violations` joined by single newlines, in order.
pub open spec fn joined_messages(violations: Seq<ViolationView>) -> Seq<char>
    decreases violations.len(),
{
    if violations.len() == 0 {
        Seq::empty()
    } else if violations.len() == 1 {
        violations[0].message
    } else {
        joined_messages(violations.drop_last()) + "\n"@ + violations.last().message
    }
}

/// Joins the messages of `violations` with newlines, in order.
pub fn join_messages(violations: &Vec<Violation>) -> (r: String)
    ensures
        r@ == joined_messages(violations@.map_values(|v: Violation| v@)),
{
    let ghost all = violations@.map_values(|v: Violation| v@);
    let mut out = String::new();
    let mut i: usize = 0;
    while i < violations.len()
        invariant
            0 <= i <= violations.len(),
            all == violations@.map_values(|v: Violation| v@),
            out@ == joined_messages(all.take(i as int)),
        decreases violations.len() - i,
    {
        if i > 0 {
            out.append("\n");
        }
        out.append(violations[i].message.as_str());
        proof {
            assert(all.take(i + 1).drop_last() =~= all.take(i as int));
            assert(all.take(i + 1).last() == all[i as int]);
            if i == 0 {
                assert(out@ =~= joined_messages(all.take(1)));
            }
        }
        i += 1;
    }
    proof {
        assert(all.take(violations@.len() as int) =~= all);
    }
    out
}

} // verus!

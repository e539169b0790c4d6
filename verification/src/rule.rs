//! The rule: a statement is reported when it grants access to a service
//! principal, is not an explicit deny, and carries no condition.

use vstd::prelude::*;
use crate::statement::StatementFlags;

verus! {

/// One reported statement: the file it was found in and the name of the
/// policy document that holds it.
#[derive(Debug, PartialEq, Eq)]
pub struct Finding {
    pub file_path: String,
    pub policy_name: String,
}

/// A [`Finding`] with its texts as sequences of characters.
pub struct FindingView {
    pub file_path: Seq<char>,
    pub policy_name: Seq<char>,
}

impl View for Finding {
    type V = FindingView;

    open spec fn view(&self) -> FindingView {
        FindingView { file_path: self.file_path@, policy_name: self.policy_name@ }
    }
}

impl Clone for Finding {
    fn clone(&self) -> (copy: Finding)
        ensures
            copy@ == self@,
    {
        Finding { file_path: self.file_path.clone(), policy_name: self.policy_name.clone() }
    }
}

impl DeepView for Finding {
    type V = FindingView;

    open spec fn deep_view(&self) -> FindingView {
        self@
    }
}

impl StatementFlags {
    /// The pattern that is reported.
    pub open spec fn risky(self) -> bool {
        !self.is_deny && self.is_service && !self.has_condition
    }

    /// Whether these flags match the pattern that is reported.
    pub fn is_risky(&self) -> (risky: bool)
        ensures
            risky == self.risky(),
    {
        !self.is_deny && self.is_service && !self.has_condition
    }
}

/// What the rule emits for a statement with the given flags.
pub open spec fn rule_outcome(
    flags: StatementFlags,
    file_path: Seq<char>,
    policy_name: Seq<char>,
) -> Option<FindingView> {
    if flags.risky() {
        Some(FindingView { file_path, policy_name })
    } else {
        None
    }
}

/// Applies the rule to the flags of one statement of the policy document
/// `policy_name` in the file `file_path`.
pub fn apply_rule(flags: StatementFlags, file_path: &str, policy_name: &str) -> (finding: Option<
    Finding,
>)
    ensures
        finding.deep_view() == rule_outcome(flags, file_path@, policy_name@),
{
    if flags.is_risky() {
        Some(Finding { file_path: file_path.to_owned(), policy_name: policy_name.to_owned() })
    } else {
        None
    }
}

} // verus!

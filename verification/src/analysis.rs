//! The walk over one document: every statement of every policy document is
//! evaluated and reported where the rule matches.

use vstd::prelude::*;
use crate::document::{
    structures_view, Block, BlockView, Document, DocumentView, Structure, StructureView,
};
use crate::rule::{apply_rule, rule_outcome, Finding, FindingView};
use crate::selector::{policy_documents, select_policy_blocks};
use crate::statement::{evaluate_statement, statement_flags};

verus! {

/// Why the analysis of a file gave no findings.
#[derive(Debug, PartialEq, Eq)]
pub enum AnalysisError {
    /// Parse failure: the parser could not make a document of the content.
    /// The message is the parser's.
    Syntax { message: String },
    /// Violation of the data contract: a policy document has a statement to
    /// report but no second label to report it under. `policy` is its
    /// position among the policy documents of the file, counted from zero.
    MissingPolicyName { policy: usize },
}

/// A structure of a policy document's body that is a statement matching the
/// rule. Attributes directly in that body are never statements.
pub open spec fn is_risky_statement(structure: StructureView) -> bool {
    structure matches StructureView::Block(statement) && statement_flags(statement.body).risky()
}

/// [`is_risky_statement`] as a function value.
pub open spec fn risky_statement_filter() -> spec_fn(StructureView) -> bool {
    |structure: StructureView| is_risky_statement(structure)
}

/// What is reported for one structure of the body of the policy document
/// `policy_name` in the file `file_path`.
pub open spec fn reported(
    file_path: Seq<char>,
    policy_name: Seq<char>,
    structure: StructureView,
) -> Option<FindingView> {
    match structure {
        StructureView::Attribute(_) => None,
        StructureView::Block(statement) => rule_outcome(
            statement_flags(statement.body),
            file_path,
            policy_name,
        ),
    }
}

/// [`reported`] as a function of the structure.
pub open spec fn reporter(file_path: Seq<char>, policy_name: Seq<char>) -> spec_fn(
    StructureView,
) -> Option<FindingView> {
    |structure: StructureView| reported(file_path, policy_name, structure)
}

/// Some statement in `body` matches the rule.
pub open spec fn has_risky_statement(body: Seq<StructureView>) -> bool {
    exists|i: int| 0 <= i < body.len() && is_risky_statement(#[trigger] body[i])
}

/// The policy document has something to report and no name to report it
/// under.
pub open spec fn lacks_policy_name(policy: BlockView) -> bool {
    policy.labels.len() < 2 && has_risky_statement(policy.body)
}

/// The findings of the structures of `body`, in order, each as [`reported`]
/// gives it.
pub open spec fn body_findings(
    file_path: Seq<char>,
    policy_name: Seq<char>,
    body: Seq<StructureView>,
) -> Seq<FindingView> {
    body.filter_map(reporter(file_path, policy_name))
}

/// The findings of one policy document: one for each statement that matches
/// the rule, in body order, each under the document's second label.
pub open spec fn policy_findings(file_path: Seq<char>, policy: BlockView) -> Seq<FindingView> {
    if policy.labels.len() >= 2 {
        body_findings(file_path, policy.labels[1], policy.body)
    } else {
        Seq::empty()
    }
}

/// [`policy_findings`] as a function of the policy document.
pub open spec fn policy_reporter(file_path: Seq<char>) -> spec_fn(BlockView) -> Seq<FindingView> {
    |policy: BlockView| policy_findings(file_path, policy)
}

/// The findings of a sequence of policy documents: those of each, one after
/// the other.
pub open spec fn findings_of(file_path: Seq<char>, policies: Seq<BlockView>) -> Seq<FindingView> {
    policies.map_values(policy_reporter(file_path)).flatten()
}

/// `k` is the position of the first policy document that lacks a name.
pub open spec fn is_first_unnamed(policies: Seq<BlockView>, k: int) -> bool {
    &&& 0 <= k < policies.len()
    &&& lacks_policy_name(policies[k])
    &&& forall|j: int| 0 <= j < k ==> !lacks_policy_name(#[trigger] policies[j])
}

/// `outcome` is what the analysis of the policy documents `policies` of the
/// file `file_path` gives: the first policy document that lacks a name as an
/// error, and the findings of all of them where there is none.
pub open spec fn is_outcome_of(
    file_path: Seq<char>,
    policies: Seq<BlockView>,
    outcome: Result<Vec<Finding>, AnalysisError>,
) -> bool {
    match outcome {
        Ok(findings) => {
            &&& forall|k: int| 0 <= k < policies.len() ==> !lacks_policy_name(#[trigger] policies[k])
            &&& findings.deep_view() == findings_of(file_path, policies)
        },
        Err(AnalysisError::MissingPolicyName { policy }) => is_first_unnamed(
            policies,
            policy as int,
        ),
        Err(AnalysisError::Syntax { .. }) => false,
    }
}

/// The name under which the statements of a policy document are reported:
/// its second label.
pub fn policy_name(policy: &Block) -> (name: Option<&String>)
    ensures
        name is Some <==> policy@.labels.len() >= 2,
        name matches Some(n) ==> n@ == policy@.labels[1],
{
    if policy.labels.len() >= 2 {
        Some(&policy.labels[1])
    } else {
        None
    }
}

/// Evaluates every statement of one policy document. `None` when a statement
/// matches the rule and the document has no name to report it under;
/// otherwise the findings, in body order.
pub fn check_policy_document(file_path: &str, policy: &Block) -> (findings: Option<Vec<Finding>>)
    ensures
        findings is None <==> lacks_policy_name(policy@),
        findings matches Some(found) ==> found.deep_view() == policy_findings(
            file_path@,
            policy@,
        ),
{
    let name = policy_name(policy);
    let body = &policy.body;
    let ghost view = policy@.body;
    let mut found: Vec<Finding> = Vec::new();
    let mut i: usize = 0;
    while i < body.len()
        invariant
            i <= body.len(),
            view == policy@.body,
            view == structures_view(body@),
            name is Some <==> policy@.labels.len() >= 2,
            name matches Some(n) ==> n@ == policy@.labels[1],
            forall|k: int| 0 <= k < i && name is None ==> !is_risky_statement(#[trigger] view[k]),
            name is None ==> found@.len() == 0,
            name matches Some(n) ==> found.deep_view() == view.take(i as int).filter_map(
                reporter(file_path@, n@),
            ),
        decreases body.len() - i,
    {
        match &body[i] {
            Structure::Attribute(_) => {},
            Structure::Block(statement) => {
                let flags = evaluate_statement(statement);
                match name {
                    Some(n) => {
                        if let Some(finding) = apply_rule(flags, file_path, n.as_str()) {
                            found.push(finding);
                        }
                    },
                    None => {
                        if flags.is_risky() {
                            assert(is_risky_statement(view[i as int]));
                            return None;
                        }
                    },
                }
            },
        }
        proof {
            if let Some(n) = name {
                view.lemma_filter_map_take_succ(reporter(file_path@, n@), i as int);
            }
        }
        i = i + 1;
    }
    assert(view.take(body.len() as int) =~= view);
    Some(found)
}

/// The findings of the given policy documents of the file `file_path`, in
/// order. The first policy document that lacks a name ends the analysis with
/// an error; no finding is returned then.
pub fn check_policy_documents(file_path: &str, policies: &Vec<&Block>) -> (outcome: Result<
    Vec<Finding>,
    AnalysisError,
>)
    ensures
        is_outcome_of(file_path@, policies.deep_view(), outcome),
{
    let ghost view = policies.deep_view();
    let mut findings: Vec<Finding> = Vec::new();
    let mut k: usize = 0;
    while k < policies.len()
        invariant
            k <= policies.len(),
            view == policies.deep_view(),
            forall|j: int| 0 <= j < k ==> !lacks_policy_name(#[trigger] view[j]),
            findings.deep_view() == findings_of(file_path@, view.take(k as int)),
        decreases policies.len() - k,
    {
        match check_policy_document(file_path, policies[k]) {
            None => return Err(AnalysisError::MissingPolicyName { policy: k }),
            Some(mut found) => {
                let ghost added = found.deep_view();
                findings.append(&mut found);
                proof {
                    let mapped = view.take(k as int).map_values(policy_reporter(file_path@));
                    mapped.lemma_flatten_push(added);
                    assert(view.take(k + 1).map_values(policy_reporter(file_path@)) =~= mapped.push(
                        added,
                    ));
                }
            },
        }
        k = k + 1;
    }
    assert(view.take(policies.len() as int) =~= view);
    Ok(findings)
}

/// The policy documents of a document, as the analysis sees them.
pub open spec fn policies_of(document: DocumentView) -> Seq<BlockView> {
    policy_documents(document.blocks)
}

/// Analyses one parsed document: selects its policy documents and reports
/// every statement of theirs that matches the rule, in document order.
pub fn check_document(file_path: &str, document: &Document) -> (outcome: Result<
    Vec<Finding>,
    AnalysisError,
>)
    ensures
        is_outcome_of(file_path@, policies_of(document@), outcome),
{
    let policies = select_policy_blocks(document);
    check_policy_documents(file_path, &policies)
}

} // verus!

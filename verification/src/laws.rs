//! What holds of the analysis for every document, stated over the spec
//! functions that the contracts of the analysis are stated over.

use vstd::prelude::*;
use vstd::seq_lib::to_multiset_contains;
use crate::analysis::{
    body_findings, is_outcome_of, is_risky_statement, lacks_policy_name, policy_findings,
    reported, reporter, risky_statement_filter, AnalysisError,
};
use crate::document::{AttributeView, BlockView, ExpressionView, StructureView};
use crate::rule::{Finding, FindingView};
use crate::selector::{is_policy_document, policy_document_filter, policy_documents};
use crate::statement::{
    block_kind, denies, grants_service, is_condition, is_service_type, lemma_flags_insert,
    statement_flags,
};
use crate::text::lowercase;

verus! {

/// Nothing is reported for a body none of whose structures is reported.
proof fn lemma_nothing_reported<A, B>(s: Seq<A>, f: spec_fn(A) -> Option<B>)
    requires
        forall|i: int| 0 <= i < s.len() ==> f(#[trigger] s[i]) is None,
    ensures
        s.filter_map(f) == Seq::<B>::empty(),
    decreases s.len(),
{
    if s.len() > 0 {
        lemma_nothing_reported(s.drop_last(), f);
    }
}

/// What is reported for two bodies, one after the other, is what is reported
/// for the first followed by what is reported for the second.
proof fn lemma_reported_in_order<A, B>(a: Seq<A>, b: Seq<A>, f: spec_fn(A) -> Option<B>)
    ensures
        (a + b).filter_map(f) == a.filter_map(f) + b.filter_map(f),
    decreases b.len(),
{
    if b.len() > 0 {
        assert((a + b).drop_last() =~= a + b.drop_last());
        lemma_reported_in_order(a, b.drop_last(), f);
    }
}

/// A policy document without statements has no findings, and so lacks no
/// name, whatever attributes its body holds.
pub proof fn lemma_no_statements_no_findings(file_path: Seq<char>, policy: BlockView)
    requires
        forall|i: int| 0 <= i < policy.body.len() ==> (#[trigger] policy.body[i]) is Attribute,
    ensures
        policy_findings(file_path, policy) == Seq::<FindingView>::empty(),
        !lacks_policy_name(policy),
{
    if policy.labels.len() >= 2 {
        lemma_nothing_reported(policy.body, reporter(file_path, policy.labels[1]));
    }
}

/// A statement with an attribute `effect = "Deny"` is never reported,
/// whatever principals and conditions it has.
pub proof fn lemma_deny_is_not_reported(
    file_path: Seq<char>,
    policy_name: Seq<char>,
    statement: BlockView,
    i: int,
)
    requires
        0 <= i < statement.body.len(),
        denies(statement.body[i]),
    ensures
        statement_flags(statement.body).is_deny,
        reported(file_path, policy_name, StructureView::Block(statement)) is None,
{
}

/// A `condition` block anywhere in the body of a statement keeps the
/// statement from being reported, whatever the block holds.
pub proof fn lemma_condition_is_not_reported(
    file_path: Seq<char>,
    policy_name: Seq<char>,
    statement: BlockView,
    i: int,
)
    requires
        0 <= i < statement.body.len(),
        is_condition(statement.body[i]),
    ensures
        statement_flags(statement.body).has_condition,
        reported(file_path, policy_name, StructureView::Block(statement)) is None,
{
}

/// A statement that grants access to a service principal, without a
/// condition and without an explicit deny, is reported exactly once, under
/// the file and the second label of its policy document: the findings of the
/// policy document are those of the structures before the statement, then
/// this one finding, then those of the structures after it.
pub proof fn lemma_service_grant_is_reported_once(
    file_path: Seq<char>,
    policy: BlockView,
    i: int,
    statement: BlockView,
)
    requires
        policy.labels.len() >= 2,
        0 <= i < policy.body.len(),
        policy.body[i] == StructureView::Block(statement),
        exists|k: int| 0 <= k < statement.body.len() && grants_service(#[trigger] statement.body[k]),
        forall|k: int| 0 <= k < statement.body.len() ==> !is_condition(#[trigger] statement.body[k]),
        forall|k: int| 0 <= k < statement.body.len() ==> !denies(#[trigger] statement.body[k]),
    ensures
        reported(file_path, policy.labels[1], policy.body[i]) == Some(
            FindingView { file_path, policy_name: policy.labels[1] },
        ),
        policy_findings(file_path, policy) == body_findings(
            file_path,
            policy.labels[1],
            policy.body.take(i),
        ) + seq![FindingView { file_path, policy_name: policy.labels[1] }] + body_findings(
            file_path,
            policy.labels[1],
            policy.body.skip(i + 1),
        ),
{
    let f = reporter(file_path, policy.labels[1]);
    let before = policy.body.take(i);
    let after = policy.body.skip(i + 1);
    assert(policy.body =~= before.push(policy.body[i]) + after);
    lemma_reported_in_order(before.push(policy.body[i]), after, f);
    assert(before.push(policy.body[i]).drop_last() =~= before);
}

/// A body has as many findings as it has statements that match the rule, and
/// each of them names the file and the policy document.
proof fn lemma_findings_of_body(
    file_path: Seq<char>,
    policy_name: Seq<char>,
    body: Seq<StructureView>,
)
    ensures
        body_findings(file_path, policy_name, body).len() == body.filter(
            risky_statement_filter(),
        ).len(),
        forall|k: int|
            0 <= k < body_findings(file_path, policy_name, body).len() ==> #[trigger] body_findings(
                file_path,
                policy_name,
                body,
            )[k] == (FindingView { file_path, policy_name }),
    decreases body.len(),
{
    reveal(Seq::filter);
    if body.len() > 0 {
        lemma_findings_of_body(file_path, policy_name, body.drop_last());
    }
}

/// A policy document with a name has exactly one finding for each of its
/// statements that match the rule, no more and no fewer, and every finding
/// names the file and the second label of the policy document.
pub proof fn lemma_one_finding_per_risky_statement(file_path: Seq<char>, policy: BlockView)
    requires
        policy.labels.len() >= 2,
    ensures
        policy_findings(file_path, policy).len() == policy.body.filter(
            risky_statement_filter(),
        ).len(),
        forall|k: int|
            0 <= k < policy_findings(file_path, policy).len() ==> #[trigger] policy_findings(
                file_path,
                policy,
            )[k] == (FindingView { file_path, policy_name: policy.labels[1] }),
{
    lemma_findings_of_body(file_path, policy.labels[1], policy.body);
}

/// Adding a structure that sets no flag to a statement that is reported,
/// wherever in the body it is put, leaves the statement reported, once and
/// with the same finding.
pub proof fn lemma_unrelated_structure_changes_nothing(
    file_path: Seq<char>,
    policy_name: Seq<char>,
    statement: BlockView,
    at: int,
    extra: StructureView,
)
    requires
        0 <= at <= statement.body.len(),
        is_risky_statement(StructureView::Block(statement)),
        !denies(extra),
        !grants_service(extra),
        !is_condition(extra),
    ensures
        reported(
            file_path,
            policy_name,
            StructureView::Block(
                BlockView {
                    identifier: statement.identifier,
                    labels: statement.labels,
                    body: statement.body.insert(at, extra),
                },
            ),
        ) == Some(FindingView { file_path, policy_name }),
        reported(file_path, policy_name, StructureView::Block(statement)) == Some(
            FindingView { file_path, policy_name },
        ),
{
    lemma_flags_insert(statement.body, at, extra);
}

/// The flags of a statement do not depend on the order of the structures in
/// its body.
pub proof fn lemma_flags_ignore_order(a: Seq<StructureView>, b: Seq<StructureView>)
    requires
        a.to_multiset() == b.to_multiset(),
    ensures
        statement_flags(a) == statement_flags(b),
{
    lemma_flags_carry_over(a, b);
    lemma_flags_carry_over(b, a);
}

/// Every flag set by a body is set by any body that holds the same
/// structures.
proof fn lemma_flags_carry_over(a: Seq<StructureView>, b: Seq<StructureView>)
    requires
        a.to_multiset() == b.to_multiset(),
    ensures
        statement_flags(a).within(statement_flags(b)),
{
    if statement_flags(a).is_deny {
        let i = choose|i: int| 0 <= i < a.len() && denies(#[trigger] a[i]);
        assert(a.contains(a[i]));
        to_multiset_contains(a, a[i]);
        to_multiset_contains(b, a[i]);
        let j = choose|j: int| 0 <= j < b.len() && b[j] == a[i];
        assert(denies(b[j]));
    }
    if statement_flags(a).is_service {
        let i = choose|i: int| 0 <= i < a.len() && grants_service(#[trigger] a[i]);
        assert(a.contains(a[i]));
        to_multiset_contains(a, a[i]);
        to_multiset_contains(b, a[i]);
        let j = choose|j: int| 0 <= j < b.len() && b[j] == a[i];
        assert(grants_service(b[j]));
    }
    if statement_flags(a).has_condition {
        let i = choose|i: int| 0 <= i < a.len() && is_condition(#[trigger] a[i]);
        assert(a.contains(a[i]));
        to_multiset_contains(a, a[i]);
        to_multiset_contains(b, a[i]);
        let j = choose|j: int| 0 <= j < b.len() && b[j] == a[i];
        assert(is_condition(b[j]));
    }
}

/// A block that declares no policy document has no part in the analysis:
/// with it or without it, wherever among the top-level blocks it stands, the
/// same policy documents are analysed.
pub proof fn lemma_other_blocks_are_passed_over(blocks: Seq<BlockView>, at: int, other: BlockView)
    requires
        0 <= at <= blocks.len(),
        !is_policy_document(other),
    ensures
        policy_documents(blocks.insert(at, other)) == policy_documents(blocks),
{
    let before = blocks.take(at);
    let after = blocks.skip(at);
    let keep = policy_document_filter();
    assert(blocks.insert(at, other) =~= before.push(other) + after);
    assert(blocks =~= before + after);
    Seq::filter_distributes_over_add(before.push(other), after, keep);
    Seq::filter_distributes_over_add(before, after, keep);
    before.lemma_filter_push(other, keep);
}

/// The outcome of the analysis is determined by the file and its policy
/// documents: two outcomes of the same analysis are both findings, and the
/// same findings, or both errors, and the same error.
pub proof fn lemma_outcome_is_determined(
    file_path: Seq<char>,
    policies: Seq<BlockView>,
    one: Result<Vec<Finding>, AnalysisError>,
    other: Result<Vec<Finding>, AnalysisError>,
)
    requires
        is_outcome_of(file_path, policies, one),
        is_outcome_of(file_path, policies, other),
    ensures
        one is Ok <==> other is Ok,
        one matches Ok(a) ==> other matches Ok(b) && a.deep_view() == b.deep_view(),
        one matches Err(a) ==> other matches Err(b) && a == b,
{
}

/// The principal type is compared exactly: an attribute `type` whose text
/// differs from `Service`, be it only in the case of a letter, does not name
/// the service principal type.
pub proof fn lemma_service_type_is_exact(text: Seq<char>)
    requires
        text != "Service"@,
    ensures
        !is_service_type(AttributeView { key: "type"@, value: ExpressionView::Text(text) }),
{
}

/// The kind of a block depends on its identifier only through the lowercase
/// form: identifiers that differ in case alone name blocks of the same kind.
pub proof fn lemma_block_kind_ignores_case(a: Seq<char>, b: Seq<char>)
    requires
        lowercase(a) == lowercase(b),
    ensures
        block_kind(a) == block_kind(b),
{
}

} // verus!

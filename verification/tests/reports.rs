use iam_policy_lint::analysis::{
    check_document, check_policy_document, check_policy_documents, policy_name, AnalysisError,
};
use iam_policy_lint::document::{Attribute, Block, Document, Expression, Structure};
use iam_policy_lint::rule::{apply_rule, Finding};
use iam_policy_lint::statement::StatementFlags;

fn text(key: &str, value: &str) -> Structure {
    Structure::Attribute(Attribute {
        key: key.to_string(),
        value: Expression::Text(value.to_string()),
    })
}

fn nested(identifier: &str, body: Vec<Structure>) -> Structure {
    Structure::Block(Block { identifier: identifier.to_string(), labels: vec![], body })
}

fn risky_statement() -> Structure {
    nested(
        "statement",
        vec![text("effect", "Allow"), nested("principals", vec![text("type", "Service")])],
    )
}

fn denied_statement() -> Structure {
    nested(
        "statement",
        vec![text("effect", "Deny"), nested("principals", vec![text("type", "Service")])],
    )
}

fn conditional_statement() -> Structure {
    nested(
        "statement",
        vec![nested("principals", vec![text("type", "Service")]), nested("condition", vec![])],
    )
}

fn policy(labels: &[&str], body: Vec<Structure>) -> Block {
    Block {
        identifier: "data".to_string(),
        labels: labels.iter().map(|label| label.to_string()).collect(),
        body,
    }
}

fn finding(path: &str, name: &str) -> Finding {
    Finding { file_path: path.to_string(), policy_name: name.to_string() }
}

#[test]
fn rule_emits_a_finding_for_the_pattern_only() {
    let risky = StatementFlags { is_deny: false, is_service: true, has_condition: false };
    assert_eq!(apply_rule(risky, "a.tf", "p"), Some(finding("a.tf", "p")));
    for is_deny in [false, true] {
        for is_service in [false, true] {
            for has_condition in [false, true] {
                let flags = StatementFlags { is_deny, is_service, has_condition };
                if flags != risky {
                    assert_eq!(apply_rule(flags, "a.tf", "p"), None);
                }
            }
        }
    }
}

#[test]
fn finding_clone_is_equal() {
    let first = finding("a.tf", "p");
    let second = first.clone();
    assert_eq!(second, first);
    assert_eq!(second, finding("a.tf", "p"));
}

#[test]
fn policy_name_is_the_second_label() {
    assert_eq!(policy_name(&policy(&[], vec![])), None);
    assert_eq!(policy_name(&policy(&["aws_iam_policy_document"], vec![])), None);
    assert_eq!(
        policy_name(&policy(&["aws_iam_policy_document", "name"], vec![])),
        Some(&"name".to_string())
    );
    assert_eq!(
        policy_name(&policy(&["aws_iam_policy_document", "name", "more"], vec![])),
        Some(&"name".to_string())
    );
}

#[test]
fn policy_document_reports_each_risky_statement() {
    let named = policy(
        &["aws_iam_policy_document", "p"],
        vec![
            text("effect", "Deny"),
            risky_statement(),
            denied_statement(),
            conditional_statement(),
            nested("statement", vec![]),
            risky_statement(),
        ],
    );
    assert_eq!(
        check_policy_document("a.tf", &named),
        Some(vec![finding("a.tf", "p"), finding("a.tf", "p")])
    );
}

#[test]
fn policy_document_without_statements_reports_nothing() {
    assert_eq!(check_policy_document("a.tf", &policy(&["t", "p"], vec![])), Some(vec![]));
    assert_eq!(
        check_policy_document("a.tf", &policy(&["t", "p"], vec![text("type", "Service")])),
        Some(vec![])
    );
    assert_eq!(check_policy_document("a.tf", &policy(&["t"], vec![])), Some(vec![]));
    assert_eq!(check_policy_document("a.tf", &policy(&[], vec![text("a", "b")])), Some(vec![]));
}

#[test]
fn unnamed_policy_document_with_a_risky_statement_is_refused() {
    assert_eq!(check_policy_document("a.tf", &policy(&["t"], vec![risky_statement()])), None);
    assert_eq!(check_policy_document("a.tf", &policy(&[], vec![risky_statement()])), None);
    assert_eq!(
        check_policy_document(
            "a.tf",
            &policy(&["t"], vec![denied_statement(), conditional_statement(), risky_statement()])
        ),
        None
    );
}

#[test]
fn unnamed_policy_document_without_a_risky_statement_is_accepted() {
    assert_eq!(
        check_policy_document(
            "a.tf",
            &policy(&["t"], vec![denied_statement(), conditional_statement()])
        ),
        Some(vec![])
    );
}

#[test]
fn findings_of_several_policy_documents_follow_their_order() {
    let first = policy(&["t", "first"], vec![risky_statement()]);
    let second = policy(&["t", "second"], vec![denied_statement()]);
    let third = policy(&["t", "third"], vec![risky_statement(), risky_statement()]);
    assert_eq!(
        check_policy_documents("a.tf", &vec![&first, &second, &third]),
        Ok(vec![finding("a.tf", "first"), finding("a.tf", "third"), finding("a.tf", "third")])
    );
    assert_eq!(check_policy_documents("a.tf", &vec![]), Ok(vec![]));
}

#[test]
fn first_unnamed_policy_document_is_the_error() {
    let named = policy(&["t", "named"], vec![risky_statement()]);
    let harmless = policy(&["t"], vec![denied_statement()]);
    let unnamed = policy(&["t"], vec![risky_statement()]);
    let also_unnamed = policy(&[], vec![risky_statement()]);
    assert_eq!(
        check_policy_documents("a.tf", &vec![&named, &harmless, &unnamed, &also_unnamed]),
        Err(AnalysisError::MissingPolicyName { policy: 2 })
    );
    assert_eq!(
        check_policy_documents("a.tf", &vec![&also_unnamed]),
        Err(AnalysisError::MissingPolicyName { policy: 0 })
    );
}

#[test]
fn document_is_checked_through_its_policy_documents_only() {
    let document = Document {
        blocks: vec![
            Block {
                identifier: "resource".to_string(),
                labels: vec!["aws_iam_policy_document".to_string()],
                body: vec![risky_statement()],
            },
            policy(&["aws_iam_policy_document", "kept"], vec![risky_statement()]),
            policy(&["aws_iam_role", "skipped"], vec![risky_statement()]),
            policy(&[], vec![risky_statement()]),
            policy(&["aws_iam_policy_document", "last"], vec![risky_statement()]),
        ],
    };
    assert_eq!(
        check_document("dir/a.tf", &document),
        Ok(vec![finding("dir/a.tf", "kept"), finding("dir/a.tf", "last")])
    );
}

#[test]
fn document_error_counts_policy_documents_not_blocks() {
    let document = Document {
        blocks: vec![
            policy(&["other"], vec![risky_statement()]),
            policy(&["aws_iam_policy_document", "fine"], vec![risky_statement()]),
            policy(&[], vec![risky_statement()]),
            policy(&["aws_iam_policy_document"], vec![risky_statement()]),
        ],
    };
    assert_eq!(
        check_document("a.tf", &document),
        Err(AnalysisError::MissingPolicyName { policy: 1 })
    );
}

#[test]
fn empty_document_has_no_findings() {
    assert_eq!(check_document("a.tf", &Document { blocks: vec![] }), Ok(vec![]));
}

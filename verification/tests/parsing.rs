use iam_policy_lint::analysis::AnalysisError;
use iam_policy_lint::document::{Attribute, Block, Document, Expression, Structure};
use iam_policy_lint::source::parse_document;

fn attribute(key: &str, value: Expression) -> Structure {
    Structure::Attribute(Attribute { key: key.to_string(), value })
}

fn text(value: &str) -> Expression {
    Expression::Text(value.to_string())
}

fn block(identifier: &str, labels: &[&str], body: Vec<Structure>) -> Block {
    Block {
        identifier: identifier.to_string(),
        labels: labels.iter().map(|label| label.to_string()).collect(),
        body,
    }
}

#[test]
fn parsed_document_holds_the_top_level_blocks_in_order() {
    let content = r#"
top_level = "dropped"

data "aws_iam_policy_document" "p" {
  version = "2012-10-17"

  statement {
    effect = "Allow"
    principals {
      type        = "Service"
      identifiers = ["ec2.amazonaws.com"]
    }
  }
}

locals {
  enabled = true
  count   = 3
  ratio   = 1.5
  nothing = null
  name    = var.name
  greeting = "hello ${var.name}"
}
"#;
    let expected = Document {
        blocks: vec![
            block(
                "data",
                &["aws_iam_policy_document", "p"],
                vec![
                    attribute("version", text("2012-10-17")),
                    Structure::Block(block(
                        "statement",
                        &[],
                        vec![
                            attribute("effect", text("Allow")),
                            Structure::Block(block(
                                "principals",
                                &[],
                                vec![
                                    attribute("type", text("Service")),
                                    attribute("identifiers", Expression::Other),
                                ],
                            )),
                        ],
                    )),
                ],
            ),
            block(
                "locals",
                &[],
                vec![
                    attribute("enabled", Expression::Boolean(true)),
                    attribute("count", Expression::Number),
                    attribute("ratio", Expression::Number),
                    attribute("nothing", Expression::Other),
                    attribute("name", Expression::Other),
                    attribute("greeting", Expression::Other),
                ],
            ),
        ],
    };
    assert_eq!(parse_document(content), Ok(expected));
}

#[test]
fn bare_and_quoted_labels_give_the_same_text() {
    let quoted = parse_document("data \"aws_iam_policy_document\" \"p\" {}\n");
    let bare = parse_document("data aws_iam_policy_document p {}\n");
    let expected = || Document { blocks: vec![block("data", &["aws_iam_policy_document", "p"], vec![])] };
    assert_eq!(quoted, Ok(expected()));
    assert_eq!(bare, Ok(expected()));
}

#[test]
fn identifiers_keep_their_case() {
    let parsed = parse_document("Data \"L\" {\n  Principals {\n    Type = \"x\"\n  }\n}\n");
    assert_eq!(
        parsed,
        Ok(Document {
            blocks: vec![block(
                "Data",
                &["L"],
                vec![Structure::Block(block("Principals", &[], vec![attribute("Type", text("x"))]))],
            )],
        })
    );
}

#[test]
fn escapes_in_text_are_resolved() {
    let parsed = parse_document("b {\n  a = \"x\\ty\\\"z\"\n}\n");
    assert_eq!(
        parsed,
        Ok(Document { blocks: vec![block("b", &[], vec![attribute("a", text("x\ty\"z"))])] })
    );
}

#[test]
fn document_without_blocks_is_empty() {
    assert_eq!(parse_document(""), Ok(Document { blocks: vec![] }));
    assert_eq!(parse_document("a = 1\nb = \"two\"\n"), Ok(Document { blocks: vec![] }));
}

#[test]
fn text_that_is_no_configuration_is_refused() {
    for content in ["data {", "= 1", "data \"unterminated {}", "a = = b", "}"] {
        match parse_document(content) {
            Err(AnalysisError::Syntax { message }) => assert!(!message.is_empty()),
            other => panic!("expected a syntax error for {:?}, got {:?}", content, other),
        }
    }
}

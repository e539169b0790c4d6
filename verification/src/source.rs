//! From the text of a configuration file to its findings. The text is parsed
//! by the `hcl` crate; the body it returns is copied into the library's own
//! tree, on which the analysis runs.

use vstd::prelude::*;
use crate::analysis::{check_document, is_outcome_of, policies_of, AnalysisError};
use crate::document::{
    structures_view, Document, DocumentView, Expression, Structure, StructureView,
};
use crate::rule::Finding;

verus! {

/// `hcl::Body`: the structures of a configuration file or of a block.
#[verifier::external_type_specification]
#[verifier::external_body]
pub struct ExBody(hcl::Body);

/// `hcl::Error`: why the `hcl` crate could not do what it was asked.
#[verifier::external_type_specification]
#[verifier::external_body]
pub struct ExError(hcl::Error);

/// The structures that an `hcl::Body` holds, in order, each with everything
/// below it.
pub uninterp spec fn body_structures(body: hcl::Body) -> Seq<StructureView>;

/// The structures of the body that `hcl::parse` reads from a text; `None`
/// where it rejects the text. The grammar is the parser's and is not written
/// out here; the result depends on the text alone.
pub uninterp spec fn parsed(content: Seq<char>) -> Option<Seq<StructureView>>;

/// Calls `hcl::parse`. The contract gives the result its name, [`parsed`],
/// and claims nothing about which texts the parser accepts or what it makes
/// of them.
#[verifier::external_body]
fn parse_body(content: &str) -> (body: Result<hcl::Body, hcl::Error>)
    ensures
        body matches Ok(b) ==> parsed(content@) == Some(body_structures(b)),
        body is Err ==> parsed(content@) is None,
{
    hcl::parse(content)
}

/// Hands out the structures of an `hcl::Body` in order, as `Body::iter`
/// yields them, each copied into the library's types: an attribute with its
/// key (`Attribute::key`) and value (`Attribute::expr`), a block with its
/// identifier (`Block::identifier`), the text of each label
/// (`BlockLabel::as_str`, the same for a bare and for a quoted label) and
/// the structures of its body (`Block::body`). Of a value, a string without
/// interpolation keeps its text and a boolean its value; of a number only the
/// kind is kept, and every other expression becomes [`Expression::Other`].
/// The contract says that what comes out is what the body holds.
#[verifier::external_body]
fn copy_structures(body: &hcl::Body) -> (structures: Vec<Structure>)
    ensures
        structures_view(structures@) == body_structures(*body),
{
    body.iter().map(|structure| match structure {
        hcl::Structure::Attribute(a) => Structure::attribute(a.key().to_string(), match a.expr() {
            hcl::Expression::String(text) => Expression::Text(text.clone()),
            hcl::Expression::Bool(value) => Expression::Boolean(*value),
            hcl::Expression::Number(_) => Expression::Number,
            _ => Expression::Other,
        }),
        hcl::Structure::Block(b) => Structure::block(
            b.identifier().to_string(),
            b.labels().iter().map(|label| label.as_str().to_string()).collect(),
            copy_structures(b.body()),
        ),
    }).collect()
}

/// `outcome` is what the analysis of the file `file_path` gives when the
/// parser made `parsed` of its content: a syntax error where the parser
/// rejected it, and else the outcome of the policy documents among its
/// top-level blocks.
pub open spec fn is_outcome_of_source(
    file_path: Seq<char>,
    parsed: Option<Seq<StructureView>>,
    outcome: Result<Vec<Finding>, AnalysisError>,
) -> bool {
    match parsed {
        Some(structures) => is_outcome_of(
            file_path,
            policies_of(DocumentView::of_structures(structures)),
            outcome,
        ),
        None => outcome matches Err(AnalysisError::Syntax { .. }),
    }
}

/// Parses the text of a configuration file into the document of its
/// top-level blocks. Text that the parser rejects gives
/// [`AnalysisError::Syntax`] with the parser's message.
pub fn parse_document(content: &str) -> (document: Result<Document, AnalysisError>)
    ensures
        match parsed(content@) {
            Some(structures) => document matches Ok(d) && d@ == DocumentView::of_structures(
                structures,
            ),
            None => document matches Err(AnalysisError::Syntax { .. }),
        },
{
    match parse_body(content) {
        Ok(body) => Ok(Document::from_structures(copy_structures(&body))),
        Err(error) => Err(AnalysisError::Syntax { message: error.to_string() }),
    }
}

/// Analyses the content of the configuration file `file_path`: parses it and
/// reports every statement of its policy documents that matches the rule.
pub fn check_terraform_source(file_path: &str, content: &str) -> (outcome: Result<
    Vec<Finding>,
    AnalysisError,
>)
    ensures
        is_outcome_of_source(file_path@, parsed(content@), outcome),
{
    match parse_document(content) {
        Ok(document) => check_document(file_path, &document),
        Err(error) => Err(error),
    }
}

} // verus!

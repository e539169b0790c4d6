//! Selection of the top-level blocks that declare IAM policy documents.

use vstd::prelude::*;
use crate::document::{Block, BlockView, Document};
use crate::text::text_eq;

verus! {

/// A block `data "aws_iam_policy_document" ...`: the identifier is `data`
/// and the first label, which must be present, is the policy document type.
pub open spec fn is_policy_document(block: BlockView) -> bool {
    &&& block.identifier == "data"@
    &&& block.labels.len() > 0
    &&& block.labels[0] == "aws_iam_policy_document"@
}

/// [`is_policy_document`] as a function value.
pub open spec fn policy_document_filter() -> spec_fn(BlockView) -> bool {
    |block: BlockView| is_policy_document(block)
}

/// The policy documents among `blocks`, in their order.
pub open spec fn policy_documents(blocks: Seq<BlockView>) -> Seq<BlockView> {
    blocks.filter(policy_document_filter())
}

/// Whether the block declares a policy document.
pub fn is_policy_block(block: &Block) -> (selected: bool)
    ensures
        selected == is_policy_document(block@),
{
    text_eq(block.identifier.as_str(), "data") && block.labels.len() > 0 && text_eq(
        block.labels[0].as_str(),
        "aws_iam_policy_document",
    )
}

/// The top-level blocks of `document` that declare policy documents, in
/// document order. Every other block is passed over.
pub fn select_policy_blocks(document: &Document) -> (selected: Vec<&Block>)
    ensures
        selected.deep_view() == policy_documents(document@.blocks),
{
    let blocks = &document.blocks;
    let ghost view = document@.blocks;
    let mut selected: Vec<&Block> = Vec::new();
    let mut i: usize = 0;
    assert(selected.deep_view() =~= policy_documents(view.take(0))) by {
        reveal(Seq::filter);
    }
    while i < blocks.len()
        invariant
            i <= blocks.len(),
            view == blocks.deep_view(),
            selected.deep_view() == policy_documents(view.take(i as int)),
        decreases blocks.len() - i,
    {
        if is_policy_block(&blocks[i]) {
            selected.push(&blocks[i]);
        }
        proof {
            view.take(i as int).lemma_filter_push(view[i as int], policy_document_filter());
            assert(view.take(i as int).push(view[i as int]) =~= view.take(i + 1));
        }
        i = i + 1;
    }
    assert(view.take(blocks.len() as int) =~= view);
    selected
}

} // verus!

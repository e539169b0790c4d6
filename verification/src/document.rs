//! The document tree: the blocks, attributes and expressions of one parsed
//! configuration file, each with its mathematical view.

use vstd::prelude::*;

verus! {

/// The value of an attribute. The analysis inspects text only; of the other
/// kinds of value it needs to know no more than that they are not text.
#[derive(Debug, PartialEq, Eq)]
pub enum Expression {
    /// A string without interpolation.
    Text(String),
    Boolean(bool),
    Number,
    /// Any other expression: a collection, a reference, a call, a template.
    Other,
}

/// An [`Expression`] with its text as a sequence of characters.
pub enum ExpressionView {
    Text(Seq<char>),
    Boolean(bool),
    Number,
    Other,
}

impl View for Expression {
    type V = ExpressionView;

    open spec fn view(&self) -> ExpressionView {
        match self {
            Expression::Text(s) => ExpressionView::Text(s@),
            Expression::Boolean(b) => ExpressionView::Boolean(*b),
            Expression::Number => ExpressionView::Number,
            Expression::Other => ExpressionView::Other,
        }
    }
}

/// `key = value`.
#[derive(Debug, PartialEq, Eq)]
pub struct Attribute {
    pub key: String,
    pub value: Expression,
}

/// An [`Attribute`] with its key as a sequence of characters.
pub struct AttributeView {
    pub key: Seq<char>,
    pub value: ExpressionView,
}

impl View for Attribute {
    type V = AttributeView;

    open spec fn view(&self) -> AttributeView {
        AttributeView { key: self.key@, value: self.value@ }
    }
}

/// A named construct: an identifier, any number of labels, and a body of
/// nested structures.
#[derive(Debug, PartialEq, Eq)]
pub struct Block {
    pub identifier: String,
    pub labels: Vec<String>,
    pub body: Vec<Structure>,
}

/// What a body holds: an attribute or a nested block.
#[derive(Debug, PartialEq, Eq)]
pub enum Structure {
    Attribute(Attribute),
    Block(Block),
}

/// A [`Block`] as a value of sequences, with everything below it.
pub struct BlockView {
    pub identifier: Seq<char>,
    pub labels: Seq<Seq<char>>,
    pub body: Seq<StructureView>,
}

/// A [`Structure`] as a value of sequences, with everything below it.
pub enum StructureView {
    Attribute(AttributeView),
    Block(BlockView),
}

impl View for Block {
    type V = BlockView;

    open spec fn view(&self) -> BlockView
        decreases self,
    {
        BlockView {
            identifier: self.identifier@,
            labels: self.labels.deep_view(),
            body: structures_view(self.body@),
        }
    }
}

impl DeepView for Block {
    type V = BlockView;

    open spec fn deep_view(&self) -> BlockView {
        self@
    }
}

impl View for Structure {
    type V = StructureView;

    open spec fn view(&self) -> StructureView
        decreases self,
    {
        match self {
            Structure::Attribute(a) => StructureView::Attribute(a@),
            Structure::Block(b) => StructureView::Block(b@),
        }
    }
}

/// The views of the structures of a body, in order.
pub open spec fn structures_view(body: Seq<Structure>) -> Seq<StructureView>
    decreases body,
{
    Seq::new(
        body.len(),
        |i: int|
            if 0 <= i < body.len() {
                body[i]@
            } else {
                arbitrary()
            },
    )
}

impl Structure {
    /// The attribute `key = value`.
    pub fn attribute(key: String, value: Expression) -> (structure: Structure)
        ensures
            structure == Structure::Attribute(Attribute { key, value }),
    {
        Structure::Attribute(Attribute { key, value })
    }

    /// The block with the given identifier, labels and body.
    pub fn block(identifier: String, labels: Vec<String>, body: Vec<Structure>) -> (structure:
        Structure)
        ensures
            structure == Structure::Block(Block { identifier, labels, body }),
    {
        Structure::Block(Block { identifier, labels, body })
    }
}

/// The block that a structure is, if it is one.
pub open spec fn as_block(structure: StructureView) -> Option<BlockView> {
    match structure {
        StructureView::Attribute(_) => None,
        StructureView::Block(block) => Some(block),
    }
}

/// [`as_block`] as a function value.
pub open spec fn block_picker() -> spec_fn(StructureView) -> Option<BlockView> {
    |structure: StructureView| as_block(structure)
}

/// One parsed configuration file: its top-level blocks in order.
#[derive(Debug, PartialEq, Eq)]
pub struct Document {
    pub blocks: Vec<Block>,
}

/// A [`Document`] as the sequence of the views of its blocks.
pub struct DocumentView {
    pub blocks: Seq<BlockView>,
}

impl View for Document {
    type V = DocumentView;

    open spec fn view(&self) -> DocumentView {
        DocumentView { blocks: self.blocks.deep_view() }
    }
}

impl DocumentView {
    /// The document of a file with the given top-level structures: the
    /// blocks among them, in order. Top-level attributes are no part of it.
    pub open spec fn of_structures(structures: Seq<StructureView>) -> DocumentView {
        DocumentView { blocks: structures.filter_map(block_picker()) }
    }
}

impl Document {
    /// The document of a file with the given top-level structures: the
    /// blocks among them, in order. Top-level attributes are dropped.
    pub fn from_structures(structures: Vec<Structure>) -> (document: Document)
        ensures
            document@ == DocumentView::of_structures(structures_view(structures@)),
    {
        let ghost view = structures_view(structures@);
        let mut blocks: Vec<Block> = Vec::new();
        for structure in it: structures
            invariant
                view == structures_view(it.seq()),
                blocks.deep_view() == view.take(it.index() as int).filter_map(block_picker()),
        {
            proof {
                view.lemma_filter_map_take_succ(block_picker(), it.index() as int);
            }
            if let Structure::Block(block) = structure {
                blocks.push(block);
            }
        }
        assert(view.take(view.len() as int) =~= view);
        Document { blocks }
    }
}

} // verus!

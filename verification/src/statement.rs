//! Evaluation of one policy statement: three flags, each set by the presence
//! of some structure in the statement's body and never cleared again.

use vstd::prelude::*;
use crate::document::{
    structures_view, Attribute, AttributeView, Block, Expression, ExpressionView, Structure,
    StructureView,
};
use crate::text::{lowercase, text_eq, to_lowercase};

verus! {

/// What the body of one statement was found to hold.
#[derive(Clone, Copy, Debug, PartialEq, Eq, Structural)]
pub struct StatementFlags {
    /// An attribute `effect = "Deny"` is present.
    pub is_deny: bool,
    /// A `principals` block names the principal type `"Service"`.
    pub is_service: bool,
    /// A `condition` block is present.
    pub has_condition: bool,
}

impl StatementFlags {
    /// No flag set.
    pub open spec fn cleared() -> StatementFlags {
        StatementFlags { is_deny: false, is_service: false, has_condition: false }
    }

    /// Each flag is set if it is set in either operand.
    pub open spec fn union(self, other: StatementFlags) -> StatementFlags {
        StatementFlags {
            is_deny: self.is_deny || other.is_deny,
            is_service: self.is_service || other.is_service,
            has_condition: self.has_condition || other.has_condition,
        }
    }

    /// Every flag that is set in `self` is set in `other`.
    pub open spec fn within(self, other: StatementFlags) -> bool {
        &&& self.is_deny ==> other.is_deny
        &&& self.is_service ==> other.is_service
        &&& self.has_condition ==> other.has_condition
    }

    /// The flags before any structure has been seen.
    pub fn new() -> (flags: StatementFlags)
        ensures
            flags == StatementFlags::cleared(),
    {
        StatementFlags { is_deny: false, is_service: false, has_condition: false }
    }

    /// Combines the flags of two scans.
    pub fn merge(self, other: StatementFlags) -> (flags: StatementFlags)
        ensures
            flags == self.union(other),
    {
        StatementFlags {
            is_deny: self.is_deny || other.is_deny,
            is_service: self.is_service || other.is_service,
            has_condition: self.has_condition || other.has_condition,
        }
    }
}

/// The role a block plays inside a statement, decided by its identifier.
#[derive(Clone, Copy, Debug, PartialEq, Eq, Structural)]
pub enum BlockKind {
    Principals,
    Condition,
    Other,
}

/// The kind of a block whose identifier, already in lowercase, is `lowered`.
pub open spec fn kind_of_lowered(lowered: Seq<char>) -> BlockKind {
    if lowered == "principals"@ {
        BlockKind::Principals
    } else if lowered == "condition"@ {
        BlockKind::Condition
    } else {
        BlockKind::Other
    }
}

/// The kind of a block with the given identifier, compared without regard
/// to case.
pub open spec fn block_kind(identifier: Seq<char>) -> BlockKind {
    kind_of_lowered(lowercase(identifier))
}

/// `effect = "Deny"`, both compared exactly.
pub open spec fn is_deny_effect(attribute: AttributeView) -> bool {
    &&& attribute.key == "effect"@
    &&& attribute.value matches ExpressionView::Text(t)
    &&& t == "Deny"@
}

/// `type = "Service"`, both compared exactly.
pub open spec fn is_service_type(attribute: AttributeView) -> bool {
    &&& attribute.key == "type"@
    &&& attribute.value matches ExpressionView::Text(t)
    &&& t == "Service"@
}

/// The structure is an attribute `type = "Service"`.
pub open spec fn names_service_type(structure: StructureView) -> bool {
    structure matches StructureView::Attribute(a) && is_service_type(a)
}

/// Some attribute directly in `body` is `type = "Service"`.
pub open spec fn names_service(body: Seq<StructureView>) -> bool {
    exists|i: int| 0 <= i < body.len() && names_service_type(#[trigger] body[i])
}

/// The structure is an attribute `effect = "Deny"`.
pub open spec fn denies(structure: StructureView) -> bool {
    structure matches StructureView::Attribute(a) && is_deny_effect(a)
}

/// The structure is a `principals` block that names the service principal
/// type directly in its body.
pub open spec fn grants_service(structure: StructureView) -> bool {
    &&& structure matches StructureView::Block(b)
    &&& block_kind(b.identifier) == BlockKind::Principals
    &&& names_service(b.body)
}

/// The structure is a `condition` block, whatever it holds.
pub open spec fn is_condition(structure: StructureView) -> bool {
    structure matches StructureView::Block(b) && block_kind(b.identifier) == BlockKind::Condition
}

/// The flags that a single structure of a statement's body sets.
pub open spec fn structure_flags(structure: StructureView) -> StatementFlags {
    StatementFlags {
        is_deny: denies(structure),
        is_service: grants_service(structure),
        has_condition: is_condition(structure),
    }
}

/// The flags of a statement with the given body: a flag is set exactly when
/// some structure of the body sets it, wherever in the body it stands.
pub open spec fn statement_flags(body: Seq<StructureView>) -> StatementFlags {
    StatementFlags {
        is_deny: exists|i: int| 0 <= i < body.len() && denies(#[trigger] body[i]),
        is_service: exists|i: int| 0 <= i < body.len() && grants_service(#[trigger] body[i]),
        has_condition: exists|i: int| 0 <= i < body.len() && is_condition(#[trigger] body[i]),
    }
}

/// Scanning a body with one more structure, wherever it is put, gives the
/// flags of the body together with those that the structure sets: no flag is
/// ever cleared.
pub proof fn lemma_flags_insert(body: Seq<StructureView>, at: int, extra: StructureView)
    requires
        0 <= at <= body.len(),
    ensures
        statement_flags(body.insert(at, extra)) == statement_flags(body).union(
            structure_flags(extra),
        ),
        statement_flags(body).within(statement_flags(body.insert(at, extra))),
{
    let longer = body.insert(at, extra);
    assert(longer[at] == extra);
    assert forall|i: int| 0 <= i < at implies longer[i] == body[i] by {}
    assert forall|i: int| at <= i < body.len() implies longer[i + 1] == body[i] by {}
    let before = statement_flags(body);
    let after = statement_flags(longer);
    if before.is_deny {
        let i = choose|i: int| 0 <= i < body.len() && denies(#[trigger] body[i]);
        assert(denies(longer[if i < at { i } else { i + 1 }]));
    }
    if before.is_service {
        let i = choose|i: int| 0 <= i < body.len() && grants_service(#[trigger] body[i]);
        assert(grants_service(longer[if i < at { i } else { i + 1 }]));
    }
    if before.has_condition {
        let i = choose|i: int| 0 <= i < body.len() && is_condition(#[trigger] body[i]);
        assert(is_condition(longer[if i < at { i } else { i + 1 }]));
    }
    if after.is_deny {
        let i = choose|i: int| 0 <= i < longer.len() && denies(#[trigger] longer[i]);
        if i != at {
            assert(denies(body[if i < at { i } else { i - 1 }]));
        }
    }
    if after.is_service {
        let i = choose|i: int| 0 <= i < longer.len() && grants_service(#[trigger] longer[i]);
        if i != at {
            assert(grants_service(body[if i < at { i } else { i - 1 }]));
        }
    }
    if after.has_condition {
        let i = choose|i: int| 0 <= i < longer.len() && is_condition(#[trigger] longer[i]);
        if i != at {
            assert(is_condition(body[if i < at { i } else { i - 1 }]));
        }
    }
}

/// Decides the kind of a block from its identifier in lowercase.
pub fn classify_lowered(lowered: &str) -> (kind: BlockKind)
    ensures
        kind == kind_of_lowered(lowered@),
{
    if text_eq(lowered, "principals") {
        BlockKind::Principals
    } else if text_eq(lowered, "condition") {
        BlockKind::Condition
    } else {
        BlockKind::Other
    }
}

/// Decides the kind of a block from its identifier, whatever its case.
pub fn classify_block(identifier: &str) -> (kind: BlockKind)
    ensures
        kind == block_kind(identifier@),
{
    let lowered = to_lowercase(identifier);
    classify_lowered(lowered.as_str())
}

/// Whether the attribute has the given key and the given text as its value.
pub fn attribute_is(attribute: &Attribute, key: &str, text: &str) -> (same: bool)
    ensures
        same == (attribute@.key == key@ && attribute@.value == ExpressionView::Text(text@)),
{
    if !text_eq(attribute.key.as_str(), key) {
        return false;
    }
    match &attribute.value {
        Expression::Text(t) => text_eq(t.as_str(), text),
        _ => false,
    }
}

/// Whether some attribute directly in the body of `principals` is
/// `type = "Service"`. Blocks nested in that body are not entered.
pub fn names_service_principal(principals: &Block) -> (found: bool)
    ensures
        found == names_service(principals@.body),
{
    let body = &principals.body;
    let ghost view = principals@.body;
    let mut i: usize = 0;
    while i < body.len()
        invariant
            i <= body.len(),
            view == principals@.body,
            view == structures_view(body@),
            forall|k: int| 0 <= k < i ==> !names_service_type(#[trigger] view[k]),
        decreases body.len() - i,
    {
        let granted = match &body[i] {
            Structure::Attribute(a) => attribute_is(a, "type", "Service"),
            Structure::Block(_) => false,
        };
        assert(granted == names_service_type(view[i as int]));
        if granted {
            return true;
        }
        i = i + 1;
    }
    false
}

/// One step of the scan: the flags so far together with those that
/// `structure` sets.
pub fn observe(flags: StatementFlags, structure: &Structure) -> (updated: StatementFlags)
    ensures
        updated == flags.union(structure_flags(structure@)),
{
    let own = match structure {
        Structure::Attribute(a) => StatementFlags {
            is_deny: attribute_is(a, "effect", "Deny"),
            is_service: false,
            has_condition: false,
        },
        Structure::Block(b) => match classify_block(b.identifier.as_str()) {
            BlockKind::Principals => StatementFlags {
                is_deny: false,
                is_service: names_service_principal(b),
                has_condition: false,
            },
            BlockKind::Condition => StatementFlags {
                is_deny: false,
                is_service: false,
                has_condition: true,
            },
            BlockKind::Other => StatementFlags::new(),
        },
    };
    flags.merge(own)
}

/// The flags of one statement, folded over the structures of its body in
/// order, starting from no flag set.
pub fn evaluate_statement(statement: &Block) -> (flags: StatementFlags)
    ensures
        flags == statement_flags(statement@.body),
{
    let body = &statement.body;
    let ghost view = statement@.body;
    let mut flags = StatementFlags::new();
    let mut i: usize = 0;
    while i < body.len()
        invariant
            i <= body.len(),
            view == structures_view(body@),
            flags == statement_flags(view.take(i as int)),
        decreases body.len() - i,
    {
        flags = observe(flags, &body[i]);
        proof {
            lemma_flags_insert(view.take(i as int), i as int, view[i as int]);
            assert(view.take(i as int).insert(i as int, view[i as int]) =~= view.take(i + 1));
        }
        i = i + 1;
    }
    assert(view.take(body.len() as int) =~= view);
    flags
}

} // verus!

//! Static analysis of infrastructure-as-code documents for IAM policy
//! statements that grant access to a service principal without an explicit
//! deny effect or a narrowing condition.
//!
//! The analysis of one file runs through these modules:
//!
//! - [`source`] parses the text with the `hcl` crate and copies the result
//!   into the tree of [`document`];
//! - [`selector`] picks the blocks that declare policy documents;
//! - [`statement`] folds the body of each statement into three flags;
//! - [`rule`] decides from the flags whether the statement is reported;
//! - [`analysis`] walks the policy documents and collects the findings.
//!
//! Everything but the call of the parser, the copy of its result and the
//! lowercase form of an identifier ([`text`]) is verified against the
//! contracts stated here; [`laws`] proves what follows from them for every
//! document.

pub mod analysis;
pub mod document;
pub mod laws;
pub mod rule;
pub mod selector;
pub mod source;
pub mod statement;
pub mod text;

//! The ways in which a run over a dump can fail.

use vstd::prelude::*;

verus! {

/// Why a statement could not be classified or an entity could not be placed.
/// Each of them ends the run: the input is fixed, so trying again cannot
/// change the outcome.
#[derive(Debug, Clone, Copy, PartialEq, Eq, Structural)]
pub enum SchemaError {
    /// The statement's kind, or a recognised part of it (an `ALTER TABLE`
    /// command, a constraint type, the kind of object that a comment, grant
    /// or owner change is about), is outside the closed set that is handled.
    UnsupportedStatementKind,
    /// The statement names an object that no earlier statement defined, or
    /// a sequence has no owning table anywhere in the catalog.
    UnresolvedReference,
    /// A part of the syntax tree that the statement's kind requires is
    /// absent or of the wrong shape.
    MalformedStatement,
}

} // verus!

use vstd::prelude::*;

verus! {

/// The ways in which constructing a term or a quad can fail.
///
/// Both variants report a contract violation by the caller: the value in
/// question is never produced, and no partially built term is observable.
#[derive(Clone, Copy, PartialEq, Eq, Structural, Debug)]
pub enum TermError {
    /// A literal was given a base direction without a language tag.
    InvalidLiteralDirection,
    /// A term of a kind outside a quad slot's permitted set was offered for
    /// that slot.
    InvalidQuadSlotKind,
}

} // verus!

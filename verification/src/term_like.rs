use vstd::prelude::*;

use crate::term::Term;

verus! {

/// Behaviour shared by every member of the term family: a value string, and
/// conversion into the general term union, both by move (`as_term`,
/// consuming) and by copy (`to_term`, cloning).
pub trait TermLike: Sized {
    /// The term's value string: its IRI, label, lexical form or name; empty
    /// for the default graph and for a quoted quad.
    fn value(&self) -> &str;

    /// Converts this term into the general term union, consuming it.
    fn as_term(self) -> Term;

    /// Converts this term into the general term union, cloning it.
    fn to_term(&self) -> Term;
}

} // verus!

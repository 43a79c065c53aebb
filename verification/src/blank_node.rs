use vstd::prelude::*;

use crate::model::TermModel;
use crate::term::Term;
use crate::term_like::TermLike;

verus! {

/// An RDF blank node: a term with document-scoped identity, named by a local label.
///
/// Two blank nodes are equal exactly when their label strings are equal (label
/// equality, not graph-isomorphism equality); the abstract value of a blank
/// node is its label string alone.
#[derive(Debug)]
pub struct BlankNode {
    value: String,
}

impl View for BlankNode {
    type V = Seq<char>;

    closed spec fn view(&self) -> Seq<char> {
        self.value@
    }
}

impl BlankNode {
    /// Constructs a blank node holding the given label string.
    pub fn new(value: &str) -> (r: Self)
        ensures
            r@ == value@,
    {
        BlankNode { value: value.to_owned() }
    }
}

impl Clone for BlankNode {
    fn clone(&self) -> (r: Self)
        ensures
            r == *self,
    {
        BlankNode { value: self.value.clone() }
    }
}

impl PartialEq for BlankNode {
    fn eq(&self, other: &Self) -> (r: bool) {
        self.value == other.value
    }

    fn ne(&self, other: &Self) -> (r: bool) {
        !(self.value == other.value)
    }
}

impl vstd::std_specs::cmp::PartialEqSpecImpl for BlankNode {
    open spec fn obeys_eq_spec() -> bool {
        true
    }

    open spec fn eq_spec(&self, other: &BlankNode) -> bool {
        self@ == other@
    }
}

impl BlankNode {
    /// Whether the given term is a blank node with the same label.
    pub fn equals(&self, other: &Term) -> (r: bool)
        ensures
            r == ((*other)@ == TermModel::BlankNode(self@)),
    {
        match other {
            Term::BlankNode(t) => self == t,
            _ => false,
        }
    }
}

impl PartialEq<Term> for BlankNode {
    fn eq(&self, other: &Term) -> (r: bool) {
        self.equals(other)
    }

    fn ne(&self, other: &Term) -> (r: bool) {
        !self.equals(other)
    }
}

impl vstd::std_specs::cmp::PartialEqSpecImpl<Term> for BlankNode {
    open spec fn obeys_eq_spec() -> bool {
        true
    }

    open spec fn eq_spec(&self, other: &Term) -> bool {
        (*other)@ == TermModel::BlankNode((*self)@)
    }
}

impl PartialEq<BlankNode> for Term {
    fn eq(&self, other: &BlankNode) -> (r: bool) {
        other.equals(self)
    }

    fn ne(&self, other: &BlankNode) -> (r: bool) {
        !other.equals(self)
    }
}

impl vstd::std_specs::cmp::PartialEqSpecImpl<BlankNode> for Term {
    open spec fn obeys_eq_spec() -> bool {
        true
    }

    open spec fn eq_spec(&self, other: &BlankNode) -> bool {
        (*self)@ == TermModel::BlankNode((*other)@)
    }
}

impl TermLike for BlankNode {
    fn value(&self) -> (r: &str)
        ensures
            r@ == self@,
    {
        self.value.as_str()
    }

    fn as_term(self) -> (r: Term)
        ensures
            r@ == TermModel::BlankNode(self@),
    {
        Term::BlankNode(self)
    }

    fn to_term(&self) -> (r: Term)
        ensures
            r@ == TermModel::BlankNode(self@),
    {
        Term::BlankNode(self.clone())
    }
}

} // verus!

use vstd::prelude::*;

use crate::model::TermModel;
use crate::term::Term;
use crate::term_like::TermLike;

verus! {

/// An RDF named node: a term identified by an IRI.
///
/// Two named nodes are equal exactly when their IRI strings are equal; the
/// abstract value of a named node is that string alone.
#[derive(Debug)]
pub struct NamedNode {
    value: String,
}

impl View for NamedNode {
    type V = Seq<char>;

    closed spec fn view(&self) -> Seq<char> {
        self.value@
    }
}

impl NamedNode {
    /// Constructs a named node holding the given IRI string.
    pub fn new(value: &str) -> (r: Self)
        ensures
            r@ == value@,
    {
        NamedNode { value: value.to_owned() }
    }
}

impl Clone for NamedNode {
    fn clone(&self) -> (r: Self)
        ensures
            r == *self,
    {
        NamedNode { value: self.value.clone() }
    }
}

impl PartialEq for NamedNode {
    fn eq(&self, other: &Self) -> (r: bool) {
        self.value == other.value
    }

    fn ne(&self, other: &Self) -> (r: bool) {
        !(self.value == other.value)
    }
}

impl vstd::std_specs::cmp::PartialEqSpecImpl for NamedNode {
    open spec fn obeys_eq_spec() -> bool {
        true
    }

    open spec fn eq_spec(&self, other: &NamedNode) -> bool {
        self@ == other@
    }
}

impl NamedNode {
    /// Whether the given term is a named node with the same IRI.
    pub fn equals(&self, other: &Term) -> (r: bool)
        ensures
            r == ((*other)@ == TermModel::NamedNode(self@)),
    {
        match other {
            Term::NamedNode(t) => self == t,
            _ => false,
        }
    }
}

impl PartialEq<Term> for NamedNode {
    fn eq(&self, other: &Term) -> (r: bool) {
        self.equals(other)
    }

    fn ne(&self, other: &Term) -> (r: bool) {
        !self.equals(other)
    }
}

impl vstd::std_specs::cmp::PartialEqSpecImpl<Term> for NamedNode {
    open spec fn obeys_eq_spec() -> bool {
        true
    }

    open spec fn eq_spec(&self, other: &Term) -> bool {
        (*other)@ == TermModel::NamedNode((*self)@)
    }
}

impl PartialEq<NamedNode> for Term {
    fn eq(&self, other: &NamedNode) -> (r: bool) {
        other.equals(self)
    }

    fn ne(&self, other: &NamedNode) -> (r: bool) {
        !other.equals(self)
    }
}

impl vstd::std_specs::cmp::PartialEqSpecImpl<NamedNode> for Term {
    open spec fn obeys_eq_spec() -> bool {
        true
    }

    open spec fn eq_spec(&self, other: &NamedNode) -> bool {
        (*self)@ == TermModel::NamedNode((*other)@)
    }
}

impl TermLike for NamedNode {
    fn value(&self) -> (r: &str)
        ensures
            r@ == self@,
    {
        self.value.as_str()
    }

    fn as_term(self) -> (r: Term)
        ensures
            r@ == TermModel::NamedNode(self@),
    {
        Term::NamedNode(self)
    }

    fn to_term(&self) -> (r: Term)
        ensures
            r@ == TermModel::NamedNode(self@),
    {
        Term::NamedNode(self.clone())
    }
}

} // verus!
